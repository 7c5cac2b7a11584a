use ffx_autosplitter::splits::Splits;
use ffx_autosplitter::telemetry::{
    Level, LEVEL_BESAID_BEACH, LEVEL_BESAID_END_ROAD, LEVEL_KILIKA_RESIDENTIAL_AREA,
    LEVEL_KILIKA_WOODS, LEVEL_MACALANIA_SPHERIMORPH, LEVEL_MACALANIA_SPRING, LEVEL_NEW_GAME,
    LEVEL_NUCLEUS,
};

#[test]
fn kilika_transition_is_a_pure_pair_lookup() {
    // the rule takes only the (old, new) pair: no other field can matter
    let from = Level(LEVEL_KILIKA_WOODS);
    let to = Level(LEVEL_KILIKA_RESIDENTIAL_AREA);
    assert_eq!(to.split(from, false), Some(Splits::Kilika));
    assert_eq!(to.split(from, true), Some(Splits::Kilika));
    // and it is deterministic across calls
    assert_eq!(to.split(from, false), Some(Splits::Kilika));
}

#[test]
fn besaid_transition() {
    let to = Level(LEVEL_BESAID_BEACH);
    assert_eq!(to.split(Level(LEVEL_BESAID_END_ROAD), false), Some(Splits::Besaid));
}

#[test]
fn unknown_pair_gives_no_split() {
    assert_eq!(Level(1).split(Level(2), false), None);
    // a known destination from the wrong origin is not enough
    assert_eq!(Level(LEVEL_KILIKA_RESIDENTIAL_AREA).split(Level(LEVEL_NUCLEUS), false), None);
}

#[test]
fn staying_on_a_level_gives_no_split() {
    let woods = Level(LEVEL_KILIKA_WOODS);
    assert_eq!(woods.split(woods, false), None);
}

#[test]
fn extended_rows_fire_only_in_extended_mode() {
    let to = Level(LEVEL_MACALANIA_SPHERIMORPH);
    let from = Level(LEVEL_MACALANIA_SPRING);
    assert_eq!(to.split(from, false), None);
    assert_eq!(to.split(from, true), Some(Splits::OakaShop));
}

#[test]
fn new_game_is_one_reserved_code() {
    assert!(Level(LEVEL_NEW_GAME).new_game());
    assert!(!Level(LEVEL_KILIKA_WOODS).new_game());
}
