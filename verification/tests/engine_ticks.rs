use ffx_autosplitter::engine::{LoadToggle, StartKind, Timer, TimerStatus};
use ffx_autosplitter::settings::Settings;
use ffx_autosplitter::splits::Splits;
use ffx_autosplitter::telemetry::{
    BattleState, Formation, Input, Level, Loading, Progress, BATTLE_IS_OVER, INPUT_CONFIRM,
    LEVEL_KILIKA_RESIDENTIAL_AREA, LEVEL_KILIKA_WOODS, LEVEL_NEW_GAME, PROGRESS_AMMES,
    PROGRESS_YU_YEVON,
};
use ffx_autosplitter::watch::Readings;

fn quiet() -> Readings {
    Readings::none()
}

#[test]
fn reset_on_music_selection_emits_reset_and_no_split() {
    let mut settings = Settings::default();
    settings.reset = true;
    let mut timer = Timer::new();

    let mut readings = quiet();
    readings.level = Some(Level(LEVEL_NEW_GAME));
    readings.select_screen = Some(5);
    let out = timer.tick(TimerStatus::NotRunning, &settings, readings);
    assert!(!out.reset);
    assert_eq!(out.split, None);

    let mut readings = quiet();
    readings.level = Some(Level(LEVEL_NEW_GAME));
    readings.select_screen = Some(6);
    let out = timer.tick(TimerStatus::NotRunning, &settings, readings);
    assert!(out.reset);
    assert_eq!(out.split, None);
    assert_eq!(out.start, None);
    assert!(matches!(timer, Timer::NotRunning(_)));
}

#[test]
fn ammes_splits_exactly_once_per_run() {
    let settings = Settings::default();
    let mut timer = Timer::new();

    let mut readings = quiet();
    readings.battle_state = Some(BattleState(BATTLE_IS_OVER));
    readings.story_progression = Some(Progress(PROGRESS_AMMES));
    let out = timer.tick(TimerStatus::Running, &settings, readings);
    assert_eq!(out.split, Some(Splits::Ammes));
    assert!(matches!(timer, Timer::Running(_)));

    // the battle flag drops and rises again: the candidate recurs,
    // but the seen-splits set swallows it
    let mut readings = quiet();
    readings.battle_state = Some(BattleState(0));
    let out = timer.tick(TimerStatus::Running, &settings, readings);
    assert_eq!(out.split, None);

    let mut readings = quiet();
    readings.battle_state = Some(BattleState(BATTLE_IS_OVER));
    readings.story_progression = Some(Progress(PROGRESS_AMMES));
    let out = timer.tick(TimerStatus::Running, &settings, readings);
    assert_eq!(out.split, None);
}

#[test]
fn menu_start_fires_and_allocates_a_fresh_run() {
    let settings = Settings::default();
    let mut timer = Timer::new();

    let mut readings = quiet();
    readings.level = Some(Level(LEVEL_NEW_GAME));
    readings.select_screen = Some(7);
    readings.cursor_position = Some(0);
    readings.input = Some(Input(INPUT_CONFIRM));
    let out = timer.tick(TimerStatus::NotRunning, &settings, readings);
    assert_eq!(out.start, Some(StartKind::Start));
    assert!(!out.reset);
    match &timer {
        Timer::Running(run) => {
            assert_eq!(run.guards, 1);
            assert_eq!(run.splits.inner(), 0);
        }
        Timer::NotRunning(_) => panic!("engine did not move to the running state"),
    }
}

#[test]
fn cursor_away_from_first_slot_blocks_the_start() {
    let settings = Settings::default();
    let mut timer = Timer::new();

    let mut readings = quiet();
    readings.level = Some(Level(LEVEL_NEW_GAME));
    readings.select_screen = Some(7);
    readings.cursor_position = Some(1 << 16);
    readings.input = Some(Input(INPUT_CONFIRM));
    let out = timer.tick(TimerStatus::NotRunning, &settings, readings);
    assert_eq!(out.start, None);
    assert!(matches!(timer, Timer::NotRunning(_)));
}

#[test]
fn unknown_status_is_a_no_op() {
    let settings = Settings::default();
    let mut timer = Timer::new();
    let mut readings = quiet();
    readings.level = Some(Level(LEVEL_NEW_GAME));
    let out = timer.tick(TimerStatus::Unknown, &settings, readings);
    assert_eq!(out.start, None);
    assert_eq!(out.split, None);
    assert!(!out.reset);
    assert_eq!(out.load_toggle, None);
    assert_eq!(out.encounter_report, None);
}

#[test]
fn load_removal_pauses_and_resumes_game_time() {
    let settings = Settings::default();
    let mut timer = Timer::new();

    let mut readings = quiet();
    readings.loading = Some(Loading(2));
    let out = timer.tick(TimerStatus::Running, &settings, readings);
    assert_eq!(out.load_toggle, Some(LoadToggle::PauseGameTime));

    let mut readings = quiet();
    readings.loading = Some(Loading(0));
    let out = timer.tick(TimerStatus::Running, &settings, readings);
    assert_eq!(out.load_toggle, Some(LoadToggle::ResumeGameTime));

    // no change: no command
    let mut readings = quiet();
    readings.loading = Some(Loading(0));
    let out = timer.tick(TimerStatus::Running, &settings, readings);
    assert_eq!(out.load_toggle, None);
}

#[test]
fn encounter_counter_is_published_when_it_changes() {
    let settings = Settings::default();
    let mut timer = Timer::new();

    let mut readings = quiet();
    readings.encounter_count = Some(5);
    let out = timer.tick(TimerStatus::Running, &settings, readings);
    assert_eq!(out.encounter_report, Some(5));

    let out = timer.tick(TimerStatus::Running, &settings, readings);
    assert_eq!(out.encounter_report, None);
}

#[test]
fn level_transition_splits_through_the_engine() {
    let settings = Settings::default();
    let mut timer = Timer::new();

    let mut readings = quiet();
    readings.level = Some(Level(LEVEL_KILIKA_WOODS));
    let out = timer.tick(TimerStatus::Running, &settings, readings);
    assert_eq!(out.split, None);

    let mut readings = quiet();
    readings.level = Some(Level(LEVEL_KILIKA_RESIDENTIAL_AREA));
    let out = timer.tick(TimerStatus::Running, &settings, readings);
    assert_eq!(out.split, Some(Splits::Kilika));
}

#[test]
fn level_rule_outranks_battle_rule() {
    let settings = Settings::default();
    let mut timer = Timer::new();

    let mut readings = quiet();
    readings.level = Some(Level(LEVEL_KILIKA_WOODS));
    timer.tick(TimerStatus::Running, &settings, readings);

    let mut readings = quiet();
    readings.level = Some(Level(LEVEL_KILIKA_RESIDENTIAL_AREA));
    readings.battle_state = Some(BattleState(BATTLE_IS_OVER));
    readings.story_progression = Some(Progress(PROGRESS_AMMES));
    let out = timer.tick(TimerStatus::Running, &settings, readings);
    assert_eq!(out.split, Some(Splits::Kilika));
}

#[test]
fn yu_yevon_split_through_the_engine() {
    let settings = Settings::default();
    let mut timer = Timer::new();

    let mut readings = quiet();
    readings.story_progression = Some(Progress(PROGRESS_YU_YEVON));
    readings.yu_yevon = Some(0);
    let out = timer.tick(TimerStatus::Running, &settings, readings);
    assert_eq!(out.split, None);

    let mut readings = quiet();
    readings.story_progression = Some(Progress(PROGRESS_YU_YEVON));
    readings.yu_yevon = Some(1);
    readings.hp_enemy_a = Some(0);
    let out = timer.tick(TimerStatus::Running, &settings, readings);
    assert_eq!(out.split, Some(Splits::YuYevon));
}

#[test]
fn resume_from_save_starts_paused() {
    let mut settings = Settings::default();
    settings.extended = true;
    settings.start_on_load = true;
    let mut timer = Timer::new();

    // the load menu shows, then the menu closes: the frame buffer is armed
    let mut readings = quiet();
    readings.level = Some(Level(LEVEL_NEW_GAME));
    readings.loading = Some(Loading(1));
    timer.tick(TimerStatus::NotRunning, &settings, readings);

    let mut readings = quiet();
    readings.level = Some(Level(LEVEL_NEW_GAME));
    readings.loading = Some(Loading(0));
    let out = timer.tick(TimerStatus::NotRunning, &settings, readings);
    assert_eq!(out.start, None);

    // the game leaves the menu and a loading screen appears within the buffer
    let mut readings = quiet();
    readings.level = Some(Level(1));
    readings.loading = Some(Loading(2));
    let out = timer.tick(TimerStatus::NotRunning, &settings, readings);
    assert_eq!(out.start, Some(StartKind::StartPaused));
    assert!(matches!(timer, Timer::Running(_)));
}

#[test]
fn loading_a_save_resets_in_extended_mode() {
    let mut settings = Settings::default();
    settings.extended = true;
    settings.reset_on_load = true;
    let mut timer = Timer::new();

    let mut readings = quiet();
    readings.level = Some(Level(LEVEL_NEW_GAME));
    readings.loading = Some(Loading(1));
    readings.input = Some(Input(INPUT_CONFIRM));
    readings.loading_slot = Some(3);
    let out = timer.tick(TimerStatus::NotRunning, &settings, readings);
    assert!(out.reset);

    // loading the autosave (slot word zero) does not reset
    let mut timer = Timer::new();
    let mut readings = quiet();
    readings.level = Some(Level(LEVEL_NEW_GAME));
    readings.loading = Some(Loading(1));
    readings.input = Some(Input(INPUT_CONFIRM));
    readings.loading_slot = Some(0);
    let out = timer.tick(TimerStatus::NotRunning, &settings, readings);
    assert!(!out.reset);
}

#[test]
fn disconnect_resets_the_guards_counter() {
    let mut settings = Settings::default();
    settings.extended = true;
    let mut timer = Timer::new();
    timer.tick(TimerStatus::Running, &settings, quiet());
    match &mut timer {
        Timer::Running(run) => {
            run.guards = 4;
        }
        Timer::NotRunning(_) => panic!("engine should be running"),
    }
    timer.on_disconnect();
    match &timer {
        Timer::Running(run) => assert_eq!(run.guards, 1),
        Timer::NotRunning(_) => panic!("disconnect must not change the state kind"),
    }
}

#[test]
fn splitting_disabled_suppresses_candidates_but_not_side_effects() {
    let mut settings = Settings::default();
    settings.split = false;
    let mut timer = Timer::new();

    let mut readings = quiet();
    readings.level = Some(Level(LEVEL_KILIKA_WOODS));
    timer.tick(TimerStatus::Running, &settings, readings);

    let mut readings = quiet();
    readings.level = Some(Level(LEVEL_KILIKA_RESIDENTIAL_AREA));
    readings.loading = Some(Loading(2));
    let out = timer.tick(TimerStatus::Running, &settings, readings);
    assert_eq!(out.split, None);
    assert_eq!(out.load_toggle, Some(LoadToggle::PauseGameTime));
}

#[test]
fn guard_gauntlet_resolves_ordinals_through_the_engine() {
    let mut settings = Settings::default();
    settings.extended = true;
    settings.guards1 = true;
    settings.guards2 = true;
    settings.guards3 = true;
    settings.guards4 = true;
    let mut timer = Timer::new();

    let battle_tick = |timer: &mut Timer, formation: u16| {
        let mut readings = quiet();
        readings.battle_state = Some(BattleState(BATTLE_IS_OVER));
        readings.story_progression = Some(Progress(2080));
        readings.map_id = Some(53);
        readings.formation_id = Some(Formation(formation));
        let out = timer.tick(TimerStatus::Running, &settings, readings);
        let mut readings = quiet();
        readings.battle_state = Some(BattleState(0));
        timer.tick(TimerStatus::Running, &settings, readings);
        out.split
    };

    // the two generic candidates recur; the engine resolves the ordinals
    assert_eq!(battle_tick(&mut timer, 0), Some(Splits::Guards1));
    assert_eq!(battle_tick(&mut timer, 256), Some(Splits::Guards2));
    assert_eq!(battle_tick(&mut timer, 0), Some(Splits::Guards3));
    assert_eq!(battle_tick(&mut timer, 256), Some(Splits::Guards4));
    assert_eq!(battle_tick(&mut timer, 512), Some(Splits::Guards));
    match &timer {
        Timer::Running(run) => assert_eq!(run.guards, 6),
        Timer::NotRunning(_) => panic!("engine should be running"),
    }
}
