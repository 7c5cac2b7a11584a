//! The run state machine and the per-tick evaluation.
//!
//! The engine is either Not-Running (watching for a run to start or for a
//! reset) or Running (watching for splits).  Once per tick the unverified
//! shell hands it the external timer's status and one [`Readings`] record;
//! the engine answers with a [`TickOutput`] naming the commands the shell
//! must forward to the timer.  Every step is specified exactly by the
//! `nr_*` / `rn_*` spec functions below.

use vstd::prelude::*;

use crate::rules::{
    spec_advance_consults_cutscene, spec_advance_split, spec_battle_consults_formation,
    spec_battle_consults_map, spec_battle_split, spec_yu_yevon_split,
};
use crate::settings::Settings;
use crate::splits::{lemma_position_in_range, SeenSplits, Splits};
use crate::telemetry::{Level, Progress, PROGRESS_GUARDS, PROGRESS_YU_YEVON};
use crate::watch::{spec_hp_refreshed, Read, Readings, Watchers};

verus! {

/// The external timer's observed status, as the shell reports it each tick.
#[derive(Clone, Copy, Debug, PartialEq, Eq, Structural)]
pub enum TimerStatus {
    Running,
    Paused,
    NotRunning,
    Ended,
    Unknown,
}

/// A game-time accumulation command, issued while load removal is on.
#[derive(Clone, Copy, Debug, PartialEq, Eq, Structural)]
pub enum LoadToggle {
    PauseGameTime,
    ResumeGameTime,
}

/// How a new run starts: plainly, or paused because it resumed from a save.
#[derive(Clone, Copy, Debug, PartialEq, Eq, Structural)]
pub enum StartKind {
    Start,
    StartPaused,
}

/// Everything one tick asks the shell to forward to the external timer.
#[derive(Clone, Copy, Debug, PartialEq, Eq)]
pub struct TickOutput {
    /// Pause or resume game-time accumulation (load removal).
    pub load_toggle: Option<LoadToggle>,
    /// Publish a new encounter-counter value to the telemetry sink.
    pub encounter_report: Option<u32>,
    /// Reset the timer.
    pub reset: bool,
    /// Start the timer (possibly with game time paused).
    pub start: Option<StartKind>,
    /// Advance the timer to the next segment.
    pub split: Option<Splits>,
}

impl TickOutput {
    pub open spec fn spec_empty() -> TickOutput {
        TickOutput {
            load_toggle: Option::None,
            encounter_report: Option::None,
            reset: false,
            start: Option::None,
            split: Option::None,
        }
    }

    pub fn empty() -> (r: TickOutput)
        ensures
            r == TickOutput::spec_empty(),
    {
        TickOutput { load_toggle: None, encounter_report: None, reset: false, start: None, split: None }
    }
}

/// The state while a run is active: its own field watchers, the seen-splits
/// set, and the disambiguation counter for the repeating guard encounters.
pub struct Running {
    pub splits: SeenSplits,
    pub watchers: Watchers,
    pub guards: u32,
}

/// The state while no run is active: its own field watchers and the small
/// frame buffer that follows a save being loaded.
pub struct NotRunning {
    pub watchers: Watchers,
    pub loading_frame_buffer: u32,
}

/// A freshly allocated Running state: empty seen-splits set, zeroed
/// watchers, guards counter at its baseline.
pub open spec fn spec_fresh_running(r: Running) -> bool {
    &&& r.splits.bits() == 0
    &&& r.watchers == Watchers::spec_initial()
    &&& r.guards == 1
}

// ---------------------------------------------------------------------------
// The Not-Running evaluation, specified.
// ---------------------------------------------------------------------------

/// Whether the menu start predicate fires: save-file select screen, cursor
/// on the first slot, and the confirm input just observed.
pub open spec fn nr_menu_start(w: Watchers, t: Readings, s: Settings) -> bool {
    let sel = w.select_screen.refreshed(t.select_screen);
    let cursor = w.cursor_position.refreshed(t.cursor_position);
    let input = w.input.refreshed(t.input);
    &&& s.start
    &&& 7 <= sel.current && sel.current <= 8
    &&& (cursor.current >> 16) & 0xFF == 0
    &&& input.current.spec_confirm_pressed()
}

/// The start decision of a Not-Running tick.
pub open spec fn nr_start(w: Watchers, buffer: u32, t: Readings, s: Settings) -> Option<StartKind> {
    let lvl = w.current_level.refreshed(t.level);
    if lvl.current.spec_new_game() {
        if nr_menu_start(w, t, s) {
            Option::Some(StartKind::Start)
        } else {
            Option::None
        }
    } else if buffer > 0 {
        let loading = w.is_loading.refreshed(t.loading);
        if loading.current.spec_is_loading() {
            Option::Some(StartKind::StartPaused)
        } else {
            Option::None
        }
    } else if s.extended {
        let prog = w.story_progression.refreshed(t.story_progression);
        if prog.spec_changed_to(Progress(PROGRESS_GUARDS)) {
            Option::Some(StartKind::Start)
        } else {
            Option::None
        }
    } else {
        Option::None
    }
}

/// The reset decision of a Not-Running tick.
pub open spec fn nr_reset(w: Watchers, t: Readings, s: Settings) -> bool {
    let lvl = w.current_level.refreshed(t.level);
    let sel = w.select_screen.refreshed(t.select_screen);
    let loading = w.is_loading.refreshed(t.loading);
    let input = w.input.refreshed(t.input);
    let slot = w.loading_slot.refreshed(t.loading_slot);
    lvl.current.spec_new_game() && {
        ||| s.reset && sel.spec_changed_to(6)
        ||| {
            &&& !nr_menu_start(w, t, s)
            &&& s.extended
            &&& s.reset_on_load
            &&& loading.current.spec_on_loading_screen()
            &&& input.spec_changed()
            &&& input.current.spec_confirm_pressed()
            &&& crate::watch::spec_slot_value(slot.current) != 0
        }
    }
}

/// The frame buffer after a Not-Running tick: it counts down while the
/// new-game screen shows, and is rearmed when a save just finished loading.
pub open spec fn nr_buffer(w: Watchers, buffer: u32, t: Readings, s: Settings) -> u32 {
    let lvl = w.current_level.refreshed(t.level);
    let loading = w.is_loading.refreshed(t.loading);
    if lvl.current.spec_new_game() {
        if !nr_menu_start(w, t, s) && s.extended && s.start_on_load
            && loading.old.spec_on_loading_screen() && loading.current.spec_not_loading() {
            10u32
        } else if buffer > 0 {
            (buffer - 1) as u32
        } else {
            0u32
        }
    } else {
        buffer
    }
}

/// The watcher state after a Not-Running tick: a field's pair shifts exactly
/// when some predicate consulted it this tick.
pub open spec fn nr_watchers(w: Watchers, buffer: u32, t: Readings, s: Settings) -> Watchers {
    let lvl = w.current_level.refreshed(t.level);
    let sel = w.select_screen.refreshed(t.select_screen);
    let cursor = w.cursor_position.refreshed(t.cursor_position);
    let loading = w.is_loading.refreshed(t.loading);
    let input = w.input.refreshed(t.input);
    let new_game = lvl.current.spec_new_game();
    let started = nr_menu_start(w, t, s);
    let menu_input = s.start && 7 <= sel.current && sel.current <= 8 && (cursor.current >> 16)
        & 0xFF == 0;
    let load_input = !started && s.extended && s.reset_on_load
        && loading.current.spec_on_loading_screen();
    Watchers {
        current_level: lvl,
        select_screen: if new_game && (s.reset || s.start) {
            sel
        } else {
            w.select_screen
        },
        cursor_position: if new_game && s.start && 7 <= sel.current && sel.current <= 8 {
            cursor
        } else {
            w.cursor_position
        },
        input: if new_game && (menu_input || load_input) {
            input
        } else {
            w.input
        },
        is_loading: if (new_game && !started && s.extended && (s.reset_on_load || s.start_on_load))
            || (!new_game && buffer > 0) {
            loading
        } else {
            w.is_loading
        },
        loading_slot: if new_game && load_input && input.spec_changed()
            && input.current.spec_confirm_pressed() {
            w.loading_slot.refreshed(t.loading_slot)
        } else {
            w.loading_slot
        },
        story_progression: if !new_game && buffer == 0 && s.extended {
            w.story_progression.refreshed(t.story_progression)
        } else {
            w.story_progression
        },
        ..w
    }
}

impl NotRunning {
    pub fn new() -> (r: NotRunning)
        ensures
            r.watchers == Watchers::spec_initial(),
            r.loading_frame_buffer == 0,
    {
        NotRunning { watchers: Watchers::new(), loading_frame_buffer: 0 }
    }

    /// One tick while no run is active: decides whether the timer should
    /// start (a new run begins) or be reset, while only the predicates that
    /// actually ran consult (and so shift) their field watchers.
    #[verifier::rlimit(100)]
    pub fn update_game(&mut self, settings: &Settings, readings: Readings) -> (r: TickOutput)
        ensures
            final(self).watchers == nr_watchers(
                old(self).watchers,
                old(self).loading_frame_buffer,
                readings,
                *settings,
            ),
            final(self).loading_frame_buffer == nr_buffer(
                old(self).watchers,
                old(self).loading_frame_buffer,
                readings,
                *settings,
            ),
            r.start == nr_start(
                old(self).watchers,
                old(self).loading_frame_buffer,
                readings,
                *settings,
            ),
            r.reset == nr_reset(old(self).watchers, readings, *settings),
            r.load_toggle == Option::<LoadToggle>::None,
            r.encounter_report == Option::<u32>::None,
            r.split == Option::<Splits>::None,
    {
        let mut read = Read::new(self.watchers, readings);
        let mut reset = false;
        let mut start: Option<StartKind> = None;

        let level = read.level();
        if level.current.new_game() {
            self.loading_frame_buffer = if self.loading_frame_buffer > 0 {
                self.loading_frame_buffer - 1
            } else {
                0
            };

            if settings.reset {
                let select = read.select_screen();
                if select.changed_to(&6) {
                    reset = true;
                }
            }

            let mut started = false;
            if settings.start {
                let select = read.select_screen();
                if 7 <= select.current && select.current <= 8 {
                    let cursor = read.cursor_position();
                    if (cursor.current >> 16) & 0xFF == 0 {
                        let input = read.input();
                        if input.current.confirm_pressed() {
                            start = Some(StartKind::Start);
                            started = true;
                        }
                    }
                }
            }

            if !started {
                if settings.extended && settings.reset_on_load {
                    let loading = read.loading();
                    if loading.current.on_loading_screen() {
                        let input = read.input();
                        if input.changed() && input.current.confirm_pressed() {
                            let slot = read.loading_slot();
                            if slot.current != 0 {
                                reset = true;
                            }
                        }
                    }
                }
                if settings.extended && settings.start_on_load {
                    let loading = read.loading();
                    if loading.old.on_loading_screen() && loading.current.not_loading() {
                        // leave a few frames for the load to begin
                        self.loading_frame_buffer = 10;
                    }
                }
            }
        } else if self.loading_frame_buffer > 0 {
            let loading = read.loading();
            if loading.current.is_loading() {
                start = Some(StartKind::StartPaused);
            }
        } else {
            if settings.extended {
                let progress = read.story_progression();
                if progress.changed_to(&Progress(PROGRESS_GUARDS)) {
                    start = Some(StartKind::Start);
                }
            }
        }

        self.watchers = read.into_watchers();
        proof {
            let w0 = old(self).watchers;
            let buf0 = old(self).loading_frame_buffer;
            let s0 = *settings;
            assert(self.watchers.is_loading == nr_watchers(w0, buf0, readings, s0).is_loading);
            assert(self.watchers.encounter_counter == nr_watchers(w0, buf0, readings, s0).encounter_counter);
            assert(self.watchers.current_level == nr_watchers(w0, buf0, readings, s0).current_level);
            assert(self.watchers.story_progression == nr_watchers(w0, buf0, readings, s0).story_progression);
            assert(self.watchers.battle_state == nr_watchers(w0, buf0, readings, s0).battle_state);
            assert(self.watchers.cutscene_type == nr_watchers(w0, buf0, readings, s0).cutscene_type);
            assert(self.watchers.map_id == nr_watchers(w0, buf0, readings, s0).map_id);
            assert(self.watchers.formation_id == nr_watchers(w0, buf0, readings, s0).formation_id);
            assert(self.watchers.yu_yevon == nr_watchers(w0, buf0, readings, s0).yu_yevon);
            assert(self.watchers.hp_enemy_a == nr_watchers(w0, buf0, readings, s0).hp_enemy_a);
            assert(self.watchers.select_screen == nr_watchers(w0, buf0, readings, s0).select_screen);
            assert(self.watchers.cursor_position == nr_watchers(w0, buf0, readings, s0).cursor_position);
            assert(self.watchers.input == nr_watchers(w0, buf0, readings, s0).input);
            assert(self.watchers.loading_slot == nr_watchers(w0, buf0, readings, s0).loading_slot);
        }
        TickOutput { load_toggle: None, encounter_report: None, reset, start, split: None }
    }
}

// ---------------------------------------------------------------------------
// The Running evaluation, specified.
// ---------------------------------------------------------------------------

/// The game-time command of a Running tick, when load removal is on.
pub open spec fn rn_load_toggle(w: Watchers, t: Readings, s: Settings) -> Option<LoadToggle> {
    let loading = w.is_loading.refreshed(t.loading);
    if s.remove_loads && loading.spec_changed() {
        if loading.current.spec_is_loading() {
            Option::Some(LoadToggle::PauseGameTime)
        } else if loading.old.spec_is_loading() {
            Option::Some(LoadToggle::ResumeGameTime)
        } else {
            Option::None
        }
    } else {
        Option::None
    }
}

/// The encounter-counter publication of a Running tick.
pub open spec fn rn_encounter(w: Watchers, t: Readings, s: Settings) -> Option<u32> {
    let enc = w.encounter_counter.refreshed(t.encounter_count);
    if s.count_encounters && enc.spec_changed() {
        Option::Some(enc.current)
    } else {
        Option::None
    }
}

/// The candidate split of a Running tick: the four rules evaluated in
/// priority order, first match wins.
pub open spec fn rn_candidate(w: Watchers, t: Readings, s: Settings) -> Option<Splits> {
    if !s.split {
        Option::None
    } else {
        let lvl = w.current_level.refreshed(t.level);
        let battle = w.battle_state.refreshed(t.battle_state);
        let prog = w.story_progression.refreshed(t.story_progression);
        let map = w.map_id.refreshed(t.map_id);
        let form = w.formation_id.refreshed(t.formation_id);
        let cut = w.cutscene_type.refreshed(t.cutscene_type);
        let yy = w.yu_yevon.refreshed(t.yu_yevon);
        let hp = spec_hp_refreshed(w.hp_enemy_a, t.hp_enemy_a);
        match Level::spec_transition(lvl.old, lvl.current, s.extended) {
            Option::Some(c) => Option::Some(c),
            Option::None => {
                let from_battle = if battle.spec_changed() {
                    spec_battle_split(prog.current.0, battle.current, map.current, form.current, s.extended)
                } else {
                    Option::None
                };
                match from_battle {
                    Option::Some(c) => Option::Some(c),
                    Option::None => match spec_advance_split(prog, cut, s.extended) {
                        Option::Some(c) => Option::Some(c),
                        Option::None => if yy.spec_changed_to(1) {
                            spec_yu_yevon_split(prog.current, hp)
                        } else {
                            Option::None
                        },
                    },
                }
            },
        }
    }
}

/// The mid-run reset decision of a Running tick: checked only when no rule
/// fired, for a run abandoned back to the menu.
pub open spec fn rn_reset(w: Watchers, t: Readings, s: Settings) -> bool {
    let lvl = w.current_level.refreshed(t.level);
    let sel = w.select_screen.refreshed(t.select_screen);
    let loading = w.is_loading.refreshed(t.loading);
    let input = w.input.refreshed(t.input);
    let slot = w.loading_slot.refreshed(t.loading_slot);
    &&& s.split
    &&& rn_candidate(w, t, s) == Option::<Splits>::None
    &&& lvl.current.spec_new_game()
    &&& {
        ||| s.reset && sel.spec_changed_to(6)
        ||| {
            &&& s.extended
            &&& s.reset_on_load
            &&& loading.current.spec_on_loading_screen()
            &&& input.current.spec_confirm_pressed()
            &&& crate::watch::spec_slot_value(slot.current) != 0
        }
    }
}

/// The watcher state after a Running tick: a field's pair shifts exactly
/// when some rule consulted it this tick.
pub open spec fn rn_watchers(w: Watchers, t: Readings, s: Settings) -> Watchers {
    let lvl = w.current_level.refreshed(t.level);
    let battle = w.battle_state.refreshed(t.battle_state);
    let prog = w.story_progression.refreshed(t.story_progression);
    let map = w.map_id.refreshed(t.map_id);
    let cut = w.cutscene_type.refreshed(t.cutscene_type);
    let yy = w.yu_yevon.refreshed(t.yu_yevon);
    let hp = spec_hp_refreshed(w.hp_enemy_a, t.hp_enemy_a);
    let loading = w.is_loading.refreshed(t.loading);
    let input = w.input.refreshed(t.input);
    let lvl_res = Level::spec_transition(lvl.old, lvl.current, s.extended);
    let battle_res = if battle.spec_changed() {
        spec_battle_split(
            prog.current.0,
            battle.current,
            map.current,
            w.formation_id.refreshed(t.formation_id).current,
            s.extended,
        )
    } else {
        Option::None
    };
    let adv_res = spec_advance_split(prog, cut, s.extended);
    let reach_battle = s.split && lvl_res == Option::<Splits>::None;
    let reach_advance = reach_battle && battle_res == Option::<Splits>::None;
    let reach_yy = reach_advance && adv_res == Option::<Splits>::None;
    let reach_reset = s.split && rn_candidate(w, t, s) == Option::<Splits>::None;
    let new_game = lvl.current.spec_new_game();
    let load_input = reach_reset && s.extended && s.reset_on_load && new_game
        && loading.current.spec_on_loading_screen();
    Watchers {
        is_loading: if s.remove_loads || (reach_reset && s.extended && s.reset_on_load && new_game) {
            loading
        } else {
            w.is_loading
        },
        encounter_counter: if s.count_encounters {
            w.encounter_counter.refreshed(t.encounter_count)
        } else {
            w.encounter_counter
        },
        current_level: if s.split {
            lvl
        } else {
            w.current_level
        },
        battle_state: if reach_battle {
            battle
        } else {
            w.battle_state
        },
        story_progression: if reach_battle {
            prog
        } else {
            w.story_progression
        },
        map_id: if reach_battle && battle.spec_changed() && spec_battle_consults_map(
            prog.current.0,
            battle.current,
            s.extended,
        ) {
            map
        } else {
            w.map_id
        },
        formation_id: if reach_battle && battle.spec_changed() && spec_battle_consults_formation(
            prog.current.0,
            battle.current,
            map.current,
            s.extended,
        ) {
            w.formation_id.refreshed(t.formation_id)
        } else {
            w.formation_id
        },
        cutscene_type: if reach_advance && spec_advance_consults_cutscene(prog) {
            cut
        } else {
            w.cutscene_type
        },
        yu_yevon: if reach_yy {
            yy
        } else {
            w.yu_yevon
        },
        hp_enemy_a: if reach_yy && yy.spec_changed_to(1) && prog.current.0 == PROGRESS_YU_YEVON {
            hp
        } else {
            w.hp_enemy_a
        },
        select_screen: if reach_reset && s.reset && new_game {
            w.select_screen.refreshed(t.select_screen)
        } else {
            w.select_screen
        },
        input: if load_input {
            input
        } else {
            w.input
        },
        loading_slot: if load_input && input.current.spec_confirm_pressed() {
            w.loading_slot.refreshed(t.loading_slot)
        } else {
            w.loading_slot
        },
        ..w
    }
}

// ---------------------------------------------------------------------------
// The disambiguator and the at-most-once split filter.
// ---------------------------------------------------------------------------

/// The disambiguator: remaps a generic candidate for the repeating guard
/// encounters to the right ordinal instance, advancing the per-run counter.
/// The first occurrence keeps the generic identifier and only advances the
/// bookkeeping; once the counter has moved past an instance, the same
/// generic candidate remaps to the next ordinal.  An out-of-range counter is
/// clamped forward rather than failing.  Returns the remapped identifier (or
/// `None` to keep the candidate) and the new counter.
pub open spec fn spec_disambiguated(guards: u32, split: Splits, extended: bool) -> (Option<Splits>, u32) {
    if !extended {
        (Option::None, guards)
    } else {
        match split {
            Splits::Guards1 => if guards == 3 {
                (Option::Some(Splits::Guards3), 4u32)
            } else {
                (Option::Some(Splits::Guards1), 2u32)
            },
            Splits::Guards2 => if guards == 4 {
                (Option::Some(Splits::Guards4), 5u32)
            } else {
                (Option::Some(Splits::Guards2), 3u32)
            },
            Splits::Guards => (Option::Some(Splits::Guards), 6u32),
            _ => (Option::None, guards),
        }
    }
}

/// What one candidate does to the run's split bookkeeping: disambiguate,
/// filter by the settings, then record in the seen-splits set; only a split
/// that is enabled and newly recorded is emitted.  Returns the emitted
/// split (if any), the new guards counter, and the new seen-splits bits.
pub open spec fn spec_try_split(guards: u32, bits: u128, s: Settings, candidate: Splits) -> (
    Option<Splits>,
    u32,
    u128,
) {
    let mapped = spec_disambiguated(guards, candidate, s.extended);
    let resolved = match mapped.0 {
        Option::Some(x) => x,
        Option::None => candidate,
    };
    if !s.spec_filter(resolved) {
        (Option::None, mapped.1, bits)
    } else {
        let mask = 1u128 << resolved.spec_position();
        if bits & mask != 0 {
            (Option::None, mapped.1, bits | mask)
        } else {
            (Option::Some(resolved), mapped.1, bits | mask)
        }
    }
}

/// What the shell learns from one Running tick, before the candidate has
/// gone through the disambiguator and the seen-splits check.
#[derive(Clone, Copy, Debug, PartialEq, Eq)]
pub struct RunningScan {
    pub load_toggle: Option<LoadToggle>,
    pub encounter_report: Option<u32>,
    pub reset: bool,
    pub candidate: Option<Splits>,
}

impl Running {
    pub fn new() -> (r: Running)
        ensures
            spec_fresh_running(r),
    {
        Running { splits: SeenSplits::empty(), watchers: Watchers::new(), guards: 1 }
    }

    /// One pass over the split rule set, in priority order, plus the
    /// game-time and encounter side effects that run before it.
    #[verifier::rlimit(100)]
    pub fn find_split(&mut self, settings: &Settings, readings: Readings) -> (r: RunningScan)
        ensures
            final(self).watchers == rn_watchers(old(self).watchers, readings, *settings),
            final(self).guards == old(self).guards,
            final(self).splits == old(self).splits,
            r.load_toggle == rn_load_toggle(old(self).watchers, readings, *settings),
            r.encounter_report == rn_encounter(old(self).watchers, readings, *settings),
            r.reset == rn_reset(old(self).watchers, readings, *settings),
            r.candidate == rn_candidate(old(self).watchers, readings, *settings),
    {
        let mut read = Read::new(self.watchers, readings);

        let mut load_toggle: Option<LoadToggle> = None;
        if settings.remove_loads {
            let loading = read.loading();
            if loading.changed() {
                if loading.current.is_loading() {
                    load_toggle = Some(LoadToggle::PauseGameTime);
                } else if loading.old.is_loading() {
                    load_toggle = Some(LoadToggle::ResumeGameTime);
                }
            }
        }

        let mut encounter_report: Option<u32> = None;
        if settings.count_encounters {
            let encounters = read.encounter_count();
            if encounters.changed() {
                encounter_report = Some(encounters.current);
            }
        }

        let mut candidate: Option<Splits> = None;
        let mut reset = false;
        if settings.split {
            let level = read.level();
            candidate = level.current.split(level.old, settings.extended);

            if candidate.is_none() {
                let battle = read.battle_state();
                if battle.changed() {
                    let progress = read.story_progression();
                    candidate = progress.current.split_battle(battle, &mut read, settings.extended);
                }
            }

            if candidate.is_none() {
                let progress = read.story_progression();
                candidate = progress.current.split_advance(progress.old, &mut read, settings.extended);
            }

            if candidate.is_none() {
                let yy = read.yu_yevon();
                if yy.changed_to(&1) {
                    let progress = read.story_progression();
                    candidate = progress.current.split_yu_yevon(&mut read);
                }
            }

            if candidate.is_none() {
                if settings.reset {
                    let level2 = read.level();
                    if level2.current.new_game() {
                        let select = read.select_screen();
                        if select.changed_to(&6) {
                            reset = true;
                        }
                    }
                }
                if settings.extended && settings.reset_on_load {
                    let level2 = read.level();
                    if level2.current.new_game() {
                        let loading = read.loading();
                        if loading.current.on_loading_screen() {
                            let input = read.input();
                            if input.current.confirm_pressed() {
                                let slot = read.loading_slot();
                                if slot.current != 0 {
                                    reset = true;
                                }
                            }
                        }
                    }
                }
            }
        }

        self.watchers = read.into_watchers();
        proof {
            let w0 = old(self).watchers;
            let s0 = *settings;
            assert(self.watchers.is_loading == rn_watchers(w0, readings, s0).is_loading);
            assert(self.watchers.encounter_counter == rn_watchers(w0, readings, s0).encounter_counter);
            assert(self.watchers.current_level == rn_watchers(w0, readings, s0).current_level);
            assert(self.watchers.story_progression == rn_watchers(w0, readings, s0).story_progression);
            assert(self.watchers.battle_state == rn_watchers(w0, readings, s0).battle_state);
            assert(self.watchers.cutscene_type == rn_watchers(w0, readings, s0).cutscene_type);
            assert(self.watchers.map_id == rn_watchers(w0, readings, s0).map_id);
            assert(self.watchers.formation_id == rn_watchers(w0, readings, s0).formation_id);
            assert(self.watchers.yu_yevon == rn_watchers(w0, readings, s0).yu_yevon);
            assert(self.watchers.hp_enemy_a == rn_watchers(w0, readings, s0).hp_enemy_a);
            assert(self.watchers.select_screen == rn_watchers(w0, readings, s0).select_screen);
            assert(self.watchers.cursor_position == rn_watchers(w0, readings, s0).cursor_position);
            assert(self.watchers.input == rn_watchers(w0, readings, s0).input);
            assert(self.watchers.loading_slot == rn_watchers(w0, readings, s0).loading_slot);
        }
        RunningScan { load_toggle, encounter_report, reset, candidate }
    }

    /// The disambiguator: remaps a generic repeating candidate to the right
    /// ordinal instance and advances the per-run counter; counters found out
    /// of the expected range are clamped forward, never fatal.
    pub fn map_split(&mut self, split: Splits, extended: bool) -> (r: Option<Splits>)
        ensures
            r == spec_disambiguated(old(self).guards, split, extended).0,
            final(self).guards == spec_disambiguated(old(self).guards, split, extended).1,
            final(self).watchers == old(self).watchers,
            final(self).splits == old(self).splits,
    {
        if !extended {
            return None;
        }
        match split {
            Splits::Guards1 => {
                if self.guards == 3 {
                    self.guards = 4;
                    Some(Splits::Guards3)
                } else {
                    // an unexpected counter is clamped forward
                    self.guards = 2;
                    Some(Splits::Guards1)
                }
            },
            Splits::Guards2 => {
                if self.guards == 4 {
                    self.guards = 5;
                    Some(Splits::Guards4)
                } else {
                    self.guards = 3;
                    Some(Splits::Guards2)
                }
            },
            Splits::Guards => {
                self.guards = 6;
                Some(Splits::Guards)
            },
            _ => None,
        }
    }

    /// Disambiguates a candidate, filters it by the settings, and records it
    /// in the seen-splits set; emits the split only when it is enabled and
    /// was not emitted before in this run.
    pub fn try_split(&mut self, settings: &Settings, candidate: Splits) -> (r: Option<Splits>)
        ensures
            ({
                let step = spec_try_split(old(self).guards, old(self).splits.bits(), *settings, candidate);
                &&& r == step.0
                &&& final(self).guards == step.1
                &&& final(self).splits.bits() == step.2
                &&& final(self).watchers == old(self).watchers
            }),
    {
        let resolved = match self.map_split(candidate, settings.extended) {
            Some(s) => s,
            None => candidate,
        };
        if !settings.filter(resolved) {
            return None;
        }
        proof {
            lemma_position_in_range(resolved);
        }
        if !self.splits.insert(&resolved) {
            return None;
        }
        Some(resolved)
    }

    /// One tick while a run is active.
    #[verifier::rlimit(100)]
    pub fn update_game(&mut self, settings: &Settings, readings: Readings) -> (r: TickOutput)
        ensures
            final(self).watchers == rn_watchers(old(self).watchers, readings, *settings),
            r.load_toggle == rn_load_toggle(old(self).watchers, readings, *settings),
            r.encounter_report == rn_encounter(old(self).watchers, readings, *settings),
            r.reset == rn_reset(old(self).watchers, readings, *settings),
            r.start == Option::<StartKind>::None,
            (match rn_candidate(old(self).watchers, readings, *settings) {
                Option::Some(c) => {
                    let step = spec_try_split(old(self).guards, old(self).splits.bits(), *settings, c);
                    &&& r.split == step.0
                    &&& final(self).guards == step.1
                    &&& final(self).splits.bits() == step.2
                },
                Option::None => {
                    &&& r.split == Option::<Splits>::None
                    &&& final(self).guards == old(self).guards
                    &&& final(self).splits == old(self).splits
                },
            }),
    {
        let scan = self.find_split(settings, readings);
        let split = match scan.candidate {
            Some(c) => self.try_split(settings, c),
            None => None,
        };
        TickOutput {
            load_toggle: scan.load_toggle,
            encounter_report: scan.encounter_report,
            reset: scan.reset,
            start: None,
            split,
        }
    }
}

// ---------------------------------------------------------------------------
// The run state machine.
// ---------------------------------------------------------------------------

/// What one Running tick does to the state and reports to the shell.
pub open spec fn spec_running_step(
    w0: Watchers,
    g0: u32,
    bits0: u128,
    t: Readings,
    s: Settings,
    post: Running,
    out: TickOutput,
) -> bool {
    &&& post.watchers == rn_watchers(w0, t, s)
    &&& out.load_toggle == rn_load_toggle(w0, t, s)
    &&& out.encounter_report == rn_encounter(w0, t, s)
    &&& out.reset == rn_reset(w0, t, s)
    &&& out.start == Option::<StartKind>::None
    &&& match rn_candidate(w0, t, s) {
        Option::Some(c) => {
            let step = spec_try_split(g0, bits0, s, c);
            &&& out.split == step.0
            &&& post.guards == step.1
            &&& post.splits.bits() == step.2
        },
        Option::None => {
            &&& out.split == Option::<Splits>::None
            &&& post.guards == g0
            &&& post.splits.bits() == bits0
        },
    }
}

/// What one Not-Running tick does to the state and reports to the shell.
pub open spec fn spec_not_running_step(
    w0: Watchers,
    buf0: u32,
    t: Readings,
    s: Settings,
    post: Timer,
    out: TickOutput,
) -> bool {
    &&& out.start == nr_start(w0, buf0, t, s)
    &&& out.reset == nr_reset(w0, t, s)
    &&& out.load_toggle == Option::<LoadToggle>::None
    &&& out.encounter_report == Option::<u32>::None
    &&& out.split == Option::<Splits>::None
    &&& if nr_start(w0, buf0, t, s) matches Option::Some(_) {
        post matches Timer::Running(r1) && spec_fresh_running(r1)
    } else {
        post matches Timer::NotRunning(n1) && n1.watchers == nr_watchers(w0, buf0, t, s)
            && n1.loading_frame_buffer == nr_buffer(w0, buf0, t, s)
    }
}

/// The run state machine: Not-Running watches for a start or reset, Running
/// watches for splits.  Driven once per tick by the external timer's status.
pub enum Timer {
    Running(Running),
    NotRunning(NotRunning),
}

impl Timer {
    pub fn new() -> (r: Timer)
        ensures
            r matches Timer::NotRunning(n) && n.watchers == Watchers::spec_initial()
                && n.loading_frame_buffer == 0,
    {
        Timer::NotRunning(NotRunning::new())
    }

    /// Moves to the Running state; entering it afresh allocates fresh
    /// watchers, an empty seen-splits set, and the guards baseline.
    pub fn get_or_start(&mut self)
        ensures
            match *old(self) {
                Timer::Running(_) => *final(self) == *old(self),
                Timer::NotRunning(_) => *final(self) matches Timer::Running(r1)
                    && spec_fresh_running(r1),
            },
    {
        let is_running = match self {
            Timer::Running(_) => true,
            Timer::NotRunning(_) => false,
        };
        if !is_running {
            *self = Timer::Running(Running::new());
        }
    }

    /// Moves to the Not-Running state, discarding any run-local state.
    pub fn stop(&mut self)
        ensures
            match *old(self) {
                Timer::NotRunning(_) => *final(self) == *old(self),
                Timer::Running(_) => *final(self) matches Timer::NotRunning(n1) && n1.watchers
                    == Watchers::spec_initial() && n1.loading_frame_buffer == 0,
            },
    {
        let is_running = match self {
            Timer::Running(_) => true,
            Timer::NotRunning(_) => false,
        };
        if is_running {
            *self = Timer::NotRunning(NotRunning::new());
        }
    }

    /// One engine tick, driven by the external timer's observed status:
    /// Running/Paused evaluate the split rules, NotRunning/Ended evaluate the
    /// start and reset predicates (allocating a fresh run when one starts),
    /// and an unknown status is a no-op.
    pub fn tick(&mut self, status: TimerStatus, settings: &Settings, readings: Readings) -> (r:
        TickOutput)
        ensures
            (match status {
                TimerStatus::Running | TimerStatus::Paused => {
                    &&& *final(self) matches Timer::Running(r1)
                    &&& match *old(self) {
                        Timer::Running(r0) => spec_running_step(
                            r0.watchers,
                            r0.guards,
                            r0.splits.bits(),
                            readings,
                            *settings,
                            r1,
                            r,
                        ),
                        Timer::NotRunning(_) => spec_running_step(
                            Watchers::spec_initial(),
                            1u32,
                            0u128,
                            readings,
                            *settings,
                            r1,
                            r,
                        ),
                    }
                },
                TimerStatus::NotRunning | TimerStatus::Ended => {
                    let pre = match *old(self) {
                        Timer::NotRunning(n0) => (n0.watchers, n0.loading_frame_buffer),
                        Timer::Running(_) => (Watchers::spec_initial(), 0u32),
                    };
                    spec_not_running_step(pre.0, pre.1, readings, *settings, *final(self), r)
                },
                TimerStatus::Unknown => *final(self) == *old(self) && r
                    == TickOutput::spec_empty(),
            }),
    {
        match status {
            TimerStatus::Running | TimerStatus::Paused => {
                self.get_or_start();
                match self {
                    Timer::Running(running) => running.update_game(settings, readings),
                    Timer::NotRunning(_) => TickOutput::empty(),
                }
            },
            TimerStatus::NotRunning | TimerStatus::Ended => {
                self.stop();
                let out = match self {
                    Timer::NotRunning(not_running) => not_running.update_game(settings, readings),
                    Timer::Running(_) => TickOutput::empty(),
                };
                if out.start.is_some() {
                    self.get_or_start();
                }
                out
            },
            TimerStatus::Unknown => TickOutput::empty(),
        }
    }

    /// The watched process went away: the disambiguation counter is reset to
    /// its baseline even while logically still Running, so a reconnect
    /// starts clean; everything else is untouched.
    pub fn on_disconnect(&mut self)
        ensures
            match *old(self) {
                Timer::Running(r0) => *final(self) == Timer::Running(
                    (Running { guards: 1, ..r0 }),
                ),
                Timer::NotRunning(_) => *final(self) == *old(self),
            },
    {
        match self {
            Timer::Running(running) => {
                running.guards = 1;
            },
            Timer::NotRunning(_) => {},
        }
    }
}

/// Law: the Not-Running evaluation produces at most one timer action per
/// tick: a tick that starts the timer never also resets it.  The predicates
/// are checked in priority order and exclude one another by construction
/// (a reset needs the selection screen at its sentinel, a start needs it in
/// the save-select range).
pub proof fn lemma_not_running_actions_exclusive(
    w: Watchers,
    buffer: u32,
    t: Readings,
    s: Settings,
)
    ensures
        !(nr_start(w, buffer, t, s) matches Option::Some(_) && nr_reset(w, t, s)),
{
}

/// Law: a split identifier outside the disambiguated guards family is
/// emitted at most once per run: after one tick has emitted it, feeding the
/// same candidate in again emits nothing, whatever the counter holds.
pub proof fn lemma_split_at_most_once(guards: u32, bits: u128, s: Settings, candidate: Splits)
    requires
        candidate != Splits::Guards1,
        candidate != Splits::Guards2,
        candidate != Splits::Guards,
        spec_try_split(guards, bits, s, candidate).0 matches Option::Some(_),
    ensures
        ({
            let step = spec_try_split(guards, bits, s, candidate);
            spec_try_split(step.1, step.2, s, candidate).0 == Option::<Splits>::None
        }),
{
    lemma_position_in_range(candidate);
    let ord = candidate.spec_position();
    assert((bits | (1u128 << ord)) & (1u128 << ord) != 0) by (bit_vector)
        requires
            ord < 128,
    ;
}

} // verus!
