use dotmog::{ClaimState, GameConfig, GameConfigType};

#[test]
fn game_config_new_numbers_parameters() {
    assert_eq!(GameConfig::new().parameters, vec![0, 1, 2, 3, 4, 5, 6, 7]);
}

#[test]
fn game_config_type_default_is_activated() {
    assert_eq!(GameConfigType::default(), GameConfigType::Activated);
}

#[test]
fn claim_state_from_u32_maps_ordinals() {
    let states = [
        ClaimState::NoState,
        ClaimState::Registred,
        ClaimState::Verified,
        ClaimState::Secured,
        ClaimState::Processed,
        ClaimState::Holded,
        ClaimState::Failed,
        ClaimState::Cancelled,
    ];
    for (i, s) in states.iter().enumerate() {
        assert_eq!(ClaimState::from_u32(i as u32), *s);
    }
    assert_eq!(ClaimState::from_u32(8), ClaimState::NoState);
    assert_eq!(ClaimState::default(), ClaimState::NoState);
}
