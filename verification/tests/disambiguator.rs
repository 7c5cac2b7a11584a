use ffx_autosplitter::engine::Running;
use ffx_autosplitter::settings::Settings;
use ffx_autosplitter::splits::{SeenSplits, Splits};
use ffx_autosplitter::watch::Watchers;

#[test]
fn three_guard_battles_from_a_cold_counter() {
    // starting at the baseline, the repeating guard candidates resolve as:
    // keep-generic (advance to 2), ordinal 2 (advance to 3), ordinal 3
    let mut run = Running::new();
    assert_eq!(run.guards, 1);
    assert_eq!(run.map_split(Splits::Guards1, true), Some(Splits::Guards1));
    assert_eq!(run.guards, 2);
    assert_eq!(run.map_split(Splits::Guards2, true), Some(Splits::Guards2));
    assert_eq!(run.guards, 3);
    assert_eq!(run.map_split(Splits::Guards1, true), Some(Splits::Guards3));
    assert_eq!(run.guards, 4);
}

#[test]
fn full_guard_sequence_ends_on_the_named_split() {
    let mut run = Running::new();
    assert_eq!(run.map_split(Splits::Guards1, true), Some(Splits::Guards1));
    assert_eq!(run.map_split(Splits::Guards2, true), Some(Splits::Guards2));
    assert_eq!(run.map_split(Splits::Guards1, true), Some(Splits::Guards3));
    assert_eq!(run.map_split(Splits::Guards2, true), Some(Splits::Guards4));
    assert_eq!(run.map_split(Splits::Guards, true), Some(Splits::Guards));
    assert_eq!(run.guards, 6);
}

#[test]
fn out_of_range_counter_is_clamped_forward() {
    let mut run = Running {
        splits: SeenSplits::empty(),
        watchers: Watchers::new(),
        guards: 5,
    };
    assert_eq!(run.map_split(Splits::Guards1, true), Some(Splits::Guards1));
    assert_eq!(run.guards, 2);
}

#[test]
fn disambiguation_is_off_outside_extended_mode() {
    let mut run = Running::new();
    assert_eq!(run.map_split(Splits::Guards1, false), None);
    assert_eq!(run.guards, 1);
    assert_eq!(run.map_split(Splits::Ammes, true), None);
    assert_eq!(run.guards, 1);
}

#[test]
fn try_split_drops_disabled_splits() {
    let mut run = Running::new();
    let settings = Settings::default();
    // valefor is off by default
    assert_eq!(run.try_split(&settings, Splits::Valefor), None);
    // and nothing was recorded for it
    assert_eq!(run.splits.inner(), 0);
}

#[test]
fn try_split_emits_each_split_once() {
    let mut run = Running::new();
    let settings = Settings::default();
    assert_eq!(run.try_split(&settings, Splits::Ammes), Some(Splits::Ammes));
    assert_eq!(run.try_split(&settings, Splits::Ammes), None);
    assert_eq!(run.try_split(&settings, Splits::Klikk), Some(Splits::Klikk));
}
