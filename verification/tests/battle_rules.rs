use ffx_autosplitter::pair::Pair;
use ffx_autosplitter::splits::Splits;
use ffx_autosplitter::telemetry::{
    BattleState, Formation, Progress, BATTLE_FANFARE, BATTLE_IS_OVER, PROGRESS_AMMES,
    PROGRESS_GARUDA, PROGRESS_KLIKK, PROGRESS_LAGOON, PROGRESS_YU_YEVON,
};
use ffx_autosplitter::watch::{slot_value, Read, Readings, Watchers};

fn read_with(readings: Readings) -> Read {
    Read::new(Watchers::new(), readings)
}

fn battle_over() -> Pair<BattleState> {
    Pair { old: BattleState(0), current: BattleState(BATTLE_IS_OVER) }
}

#[test]
fn ammes_splits_when_its_battle_ends() {
    let mut read = read_with(Readings::none());
    let r = Progress(PROGRESS_AMMES).split_battle(battle_over(), &mut read, false);
    assert_eq!(r, Some(Splits::Ammes));
}

#[test]
fn no_split_while_battle_is_not_over() {
    let mut read = read_with(Readings::none());
    let pair = Pair { old: BattleState(0), current: BattleState(0) };
    let r = Progress(PROGRESS_AMMES).split_battle(pair, &mut read, false);
    assert_eq!(r, None);
}

#[test]
fn klikk_needs_the_fanfare_bit() {
    let mut read = read_with(Readings::none());
    let r = Progress(PROGRESS_KLIKK).split_battle(battle_over(), &mut read, false);
    assert_eq!(r, None);

    let mut read = read_with(Readings::none());
    let with_fanfare = Pair {
        old: BattleState(0),
        current: BattleState(BATTLE_IS_OVER | BATTLE_FANFARE),
    };
    let r = Progress(PROGRESS_KLIKK).split_battle(with_fanfare, &mut read, false);
    assert_eq!(r, Some(Splits::Klikk));
}

#[test]
fn garuda_needs_its_encounter() {
    let mut readings = Readings::none();
    readings.map_id = Some(17);
    readings.formation_id = Some(Formation(256)); // codes (0, 1), little-endian
    let mut read = read_with(readings);
    let r = Progress(PROGRESS_GARUDA).split_battle(battle_over(), &mut read, false);
    assert_eq!(r, Some(Splits::Garuda));

    let mut readings = Readings::none();
    readings.map_id = Some(18);
    readings.formation_id = Some(Formation(256));
    let mut read = read_with(readings);
    let r = Progress(PROGRESS_GARUDA).split_battle(battle_over(), &mut read, false);
    assert_eq!(r, None);
}

#[test]
fn unknown_milestone_gives_no_split() {
    let mut read = read_with(Readings::none());
    let r = Progress(123456).split_battle(battle_over(), &mut read, false);
    assert_eq!(r, None);
}

#[test]
fn advance_rejects_equal_and_lower_progress() {
    // feeding [100, 100, 99, 150] against old == 100: nothing may fire
    let previous = Progress(100);
    for new in [100u32, 99, 150] {
        let mut readings = Readings::none();
        readings.cutscene_type = Some(73);
        let mut read = read_with(readings);
        let r = Progress(new).split_advance(previous, &mut read, false);
        assert_eq!(r, None, "advance fired for {} <=> 100", new);
    }
}

#[test]
fn advance_fires_on_lagoon_with_cutscene() {
    let mut readings = Readings::none();
    readings.cutscene_type = Some(73);
    let mut read = read_with(readings);
    let r = Progress(150).split_advance(Progress(PROGRESS_LAGOON), &mut read, false);
    assert_eq!(r, Some(Splits::Lagoon));

    // without the confirming cutscene value the rule stays quiet
    let mut read = read_with(Readings::none());
    let r = Progress(150).split_advance(Progress(PROGRESS_LAGOON), &mut read, false);
    assert_eq!(r, None);
}

#[test]
fn yu_yevon_splits_on_zero_hp() {
    let mut readings = Readings::none();
    readings.hp_enemy_a = Some(0);
    let mut read = read_with(readings);
    let r = Progress(PROGRESS_YU_YEVON).split_yu_yevon(&mut read);
    assert_eq!(r, Some(Splits::YuYevon));
}

#[test]
fn unreadable_hp_never_counts_as_a_kill() {
    let mut read = read_with(Readings::none());
    let r = Progress(PROGRESS_YU_YEVON).split_yu_yevon(&mut read);
    assert_eq!(r, None);
}

#[test]
fn formation_word_is_little_endian() {
    assert!(Formation(513).is(1, 2)); // 1 + 2 * 256
    assert!(!Formation(513).is(2, 1));
    assert!(Formation(0).is(0, 0));
}

#[test]
fn slot_value_folds_and_saturates() {
    assert_eq!(slot_value(0), 0);
    assert_eq!(slot_value((1u64 << 32) + 5), 6);
    assert_eq!(slot_value(u64::MAX), u32::MAX);
}
