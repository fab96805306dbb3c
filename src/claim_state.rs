//! States of an account claim.

use vstd::prelude::*;

verus! {

/// The life cycle of an account claim.
#[derive(Clone, Copy, Debug, PartialEq, Eq, Structural)]
pub enum ClaimState {
    NoState,
    Registred,
    Verified,
    Secured,
    Processed,
    Holded,
    Failed,
    Cancelled,
}

/// The claim state with ordinal `n`; any value out of range gives `NoState`.
pub open spec fn claim_state_of(n: int) -> ClaimState {
    if n == 1 {
        ClaimState::Registred
    } else if n == 2 {
        ClaimState::Verified
    } else if n == 3 {
        ClaimState::Secured
    } else if n == 4 {
        ClaimState::Processed
    } else if n == 5 {
        ClaimState::Holded
    } else if n == 6 {
        ClaimState::Failed
    } else if n == 7 {
        ClaimState::Cancelled
    } else {
        ClaimState::NoState
    }
}

impl ClaimState {
    /// The claim state with ordinal `value`; any other value gives `NoState`.
    pub fn from_u32(value: u32) -> (r: ClaimState)
        ensures
            r == claim_state_of(value as int),
    {
        match value {
            0 => ClaimState::NoState,
            1 => ClaimState::Registred,
            2 => ClaimState::Verified,
            3 => ClaimState::Secured,
            4 => ClaimState::Processed,
            5 => ClaimState::Holded,
            6 => ClaimState::Failed,
            7 => ClaimState::Cancelled,
            _ => ClaimState::NoState,
        }
    }
}

impl Default for ClaimState {
    fn default() -> (r: Self)
        ensures
            r == ClaimState::NoState,
    {
        ClaimState::NoState
    }
}

} // verus!
