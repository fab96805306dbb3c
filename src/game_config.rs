//! Game configuration parameters.

use vstd::prelude::*;

verus! {

/// The kinds of game configuration parameter.
#[derive(Clone, Copy, Debug, PartialEq, Eq, Structural)]
pub enum GameConfigType {
    Activated,
    MaxMogwaisInAccount,
    MaxStashSize,
    AccountNaming,
}

impl Default for GameConfigType {
    fn default() -> (r: Self)
        ensures
            r == GameConfigType::Activated,
    {
        GameConfigType::Activated
    }
}

/// Number of parameters of a fresh configuration.
pub const PARAM_COUNT: u8 = 8;

/// A game configuration: one byte per parameter.
#[derive(Clone, Debug, Default, PartialEq, Eq)]
pub struct GameConfig {
    pub parameters: Vec<u8>,
}

impl GameConfig {
    /// A configuration whose parameters are `0, 1, ..., PARAM_COUNT - 1`.
    pub fn new() -> (r: Self)
        ensures
            r.parameters@ == Seq::new(PARAM_COUNT as nat, |i: int| i as u8),
    {
        let mut v: Vec<u8> = Vec::new();
        for i in 0..PARAM_COUNT
            invariant
                v@ == Seq::new(i as nat, |j: int| j as u8),
        {
            v.push(i);
        }
        GameConfig { parameters: v }
    }
}

} // verus!
