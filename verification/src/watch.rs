//! Field watchers and the per-tick lazy read cache.
//!
//! Every telemetry field is held in a snapshot [`Pair`].  Once per tick the
//! unverified shell hands the engine one [`Readings`] record with the raw
//! values it read from the game (or `None` where a read failed); the engine
//! feeds a field's reading into its pair at most once per tick, and only
//! when some rule actually consults that field, exactly as if the read were
//! issued lazily.

use vstd::prelude::*;

use crate::pair::Pair;
use crate::telemetry::{BattleState, Formation, Hp, Input, Level, Loading, Progress, HP_UNKNOWN};

verus! {

/// What the external telemetry reader returned this tick, one entry per
/// watched field; `None` records a transient read failure for that field.
#[derive(Clone, Copy, Debug)]
pub struct Readings {
    pub loading: Option<Loading>,
    pub encounter_count: Option<u32>,
    pub level: Option<Level>,
    pub story_progression: Option<Progress>,
    pub battle_state: Option<BattleState>,
    pub cutscene_type: Option<u32>,
    pub map_id: Option<u16>,
    pub formation_id: Option<Formation>,
    pub yu_yevon: Option<u32>,
    pub hp_enemy_a: Option<u32>,
    pub select_screen: Option<u32>,
    pub cursor_position: Option<u32>,
    pub input: Option<Input>,
    pub loading_slot: Option<u64>,
}

impl Readings {
    /// A tick on which every read failed: nothing changes.
    pub fn none() -> (r: Readings)
        ensures
            r == Readings::spec_none(),
    {
        Readings {
            loading: Option::None,
            encounter_count: Option::None,
            level: Option::None,
            story_progression: Option::None,
            battle_state: Option::None,
            cutscene_type: Option::None,
            map_id: Option::None,
            formation_id: Option::None,
            yu_yevon: Option::None,
            hp_enemy_a: Option::None,
            select_screen: Option::None,
            cursor_position: Option::None,
            input: Option::None,
            loading_slot: Option::None,
        }
    }

    pub open spec fn spec_none() -> Readings {
        Readings {
            loading: Option::None,
            encounter_count: Option::None,
            level: Option::None,
            story_progression: Option::None,
            battle_state: Option::None,
            cutscene_type: Option::None,
            map_id: Option::None,
            formation_id: Option::None,
            yu_yevon: Option::None,
            hp_enemy_a: Option::None,
            select_screen: Option::None,
            cursor_position: Option::None,
            input: Option::None,
            loading_slot: Option::None,
        }
    }
}

/// One snapshot pair per telemetry field.
#[derive(Clone, Copy, Debug)]
pub struct Watchers {
    pub is_loading: Pair<Loading>,
    pub encounter_counter: Pair<u32>,
    pub current_level: Pair<Level>,
    pub story_progression: Pair<Progress>,
    pub battle_state: Pair<BattleState>,
    pub cutscene_type: Pair<u32>,
    pub map_id: Pair<u16>,
    pub formation_id: Pair<Formation>,
    pub yu_yevon: Pair<u32>,
    pub hp_enemy_a: Pair<u32>,
    pub select_screen: Pair<u32>,
    pub cursor_position: Pair<u32>,
    pub input: Pair<Input>,
    pub loading_slot: Pair<u64>,
}

impl Watchers {
    /// The watcher state a fresh run starts from.
    pub open spec fn spec_initial() -> Watchers {
        Watchers {
            is_loading: (Pair { old: Loading(0), current: Loading(0) }),
            encounter_counter: (Pair { old: 0u32, current: 0u32 }),
            current_level: (Pair { old: Level(0), current: Level(0) }),
            story_progression: (Pair { old: Progress(0), current: Progress(0) }),
            battle_state: (Pair { old: BattleState(0), current: BattleState(0) }),
            cutscene_type: (Pair { old: 0u32, current: 0u32 }),
            map_id: (Pair { old: 0u16, current: 0u16 }),
            formation_id: (Pair { old: Formation(0), current: Formation(0) }),
            yu_yevon: (Pair { old: 0u32, current: 0u32 }),
            hp_enemy_a: (Pair { old: 0u32, current: 0u32 }),
            select_screen: (Pair { old: 0u32, current: 0u32 }),
            cursor_position: (Pair { old: 0u32, current: 0u32 }),
            input: (Pair { old: Input(0), current: Input(0) }),
            loading_slot: (Pair { old: 0u64, current: 0u64 }),
        }
    }

    pub fn new() -> (r: Watchers)
        ensures
            r == Watchers::spec_initial(),
    {
        Watchers {
            is_loading: (Pair { old: Loading(0), current: Loading(0) }),
            encounter_counter: (Pair { old: 0u32, current: 0u32 }),
            current_level: (Pair { old: Level(0), current: Level(0) }),
            story_progression: (Pair { old: Progress(0), current: Progress(0) }),
            battle_state: (Pair { old: BattleState(0), current: BattleState(0) }),
            cutscene_type: (Pair { old: 0u32, current: 0u32 }),
            map_id: (Pair { old: 0u16, current: 0u16 }),
            formation_id: (Pair { old: Formation(0), current: Formation(0) }),
            yu_yevon: (Pair { old: 0u32, current: 0u32 }),
            hp_enemy_a: (Pair { old: 0u32, current: 0u32 }),
            select_screen: (Pair { old: 0u32, current: 0u32 }),
            cursor_position: (Pair { old: 0u32, current: 0u32 }),
            input: (Pair { old: Input(0), current: Input(0) }),
            loading_slot: (Pair { old: 0u64, current: 0u64 }),
        }
    }
}

/// Folds the two 32-bit halves of the load-slot word into one value,
/// saturating at the largest 32-bit value.
pub open spec fn spec_slot_value(v: u64) -> u32 {
    let lo = (v & 0xFFFF_FFFF) as u32;
    let hi = (v >> 32) as u32;
    if lo + hi > u32::MAX {
        u32::MAX
    } else {
        (lo + hi) as u32
    }
}

pub fn slot_value(v: u64) -> (r: u32)
    ensures
        r == spec_slot_value(v),
{
    proof {
        assert(v & 0xFFFF_FFFF <= 0xFFFF_FFFF) by (bit_vector);
        assert(v >> 32 <= 0xFFFF_FFFF) by (bit_vector);
    }
    let lo: u32 = (v & 0xFFFF_FFFF) as u32;
    let hi: u32 = (v >> 32) as u32;
    let sum: u64 = lo as u64 + hi as u64;
    if sum > 0xFFFF_FFFF {
        u32::MAX
    } else {
        sum as u32
    }
}

/// How the boss-HP pair takes one read attempt: a failed read shifts the
/// pair to the "unknown/alive" sentinel, never keeping a stale kill.
pub open spec fn spec_hp_refreshed(p: Pair<u32>, reading: Option<u32>) -> Pair<u32> {
    match reading {
        Option::Some(v) => p.updated(v),
        Option::None => p.updated(HP_UNKNOWN),
    }
}

/// The per-tick read cache: wraps the watchers and this tick's raw readings
/// so that each field's pair is refreshed at most once per tick, however many
/// rules consult it; later consults see the memoized pair.
#[derive(Clone, Copy, Debug)]
pub struct Read {
    pub watchers: Watchers,
    pub readings: Readings,
    pub loading_seen: bool,
    pub encounter_seen: bool,
    pub level_seen: bool,
    pub story_seen: bool,
    pub battle_seen: bool,
    pub cutscene_seen: bool,
    pub map_seen: bool,
    pub formation_seen: bool,
    pub yu_yevon_seen: bool,
    pub select_seen: bool,
    pub cursor_seen: bool,
    pub input_seen: bool,
    pub hp_seen: bool,
    pub slot_seen: bool,
}

impl Read {
    /// Starts a tick: no field consulted yet.
    pub open spec fn spec_new(watchers: Watchers, readings: Readings) -> Read {
        Read {
            watchers,
            readings,
            loading_seen: false,
            encounter_seen: false,
            level_seen: false,
            story_seen: false,
            battle_seen: false,
            cutscene_seen: false,
            map_seen: false,
            formation_seen: false,
            yu_yevon_seen: false,
            select_seen: false,
            cursor_seen: false,
            input_seen: false,
            hp_seen: false,
            slot_seen: false,
        }
    }

    pub fn new(watchers: Watchers, readings: Readings) -> (r: Read)
        ensures
            r == Read::spec_new(watchers, readings),
    {
        Read {
            watchers,
            readings,
            loading_seen: false,
            encounter_seen: false,
            level_seen: false,
            story_seen: false,
            battle_seen: false,
            cutscene_seen: false,
            map_seen: false,
            formation_seen: false,
            yu_yevon_seen: false,
            select_seen: false,
            cursor_seen: false,
            input_seen: false,
            hp_seen: false,
            slot_seen: false,
        }
    }

    /// Ends the tick, handing the (partially refreshed) watchers back.
    pub fn into_watchers(self) -> (r: Watchers)
        ensures
            r == self.watchers,
    {
        self.watchers
    }

    /// The value of the `is_loading` pair as any consult this tick sees it.
    pub open spec fn eff_loading(self) -> Pair<Loading> {
        if self.loading_seen {
            self.watchers.is_loading
        } else {
            self.watchers.is_loading.refreshed(self.readings.loading)
        }
    }
    /// The value of the `encounter_counter` pair as any consult this tick sees it.
    pub open spec fn eff_encounter_count(self) -> Pair<u32> {
        if self.encounter_seen {
            self.watchers.encounter_counter
        } else {
            self.watchers.encounter_counter.refreshed(self.readings.encounter_count)
        }
    }
    /// The value of the `current_level` pair as any consult this tick sees it.
    pub open spec fn eff_level(self) -> Pair<Level> {
        if self.level_seen {
            self.watchers.current_level
        } else {
            self.watchers.current_level.refreshed(self.readings.level)
        }
    }
    /// The value of the `story_progression` pair as any consult this tick sees it.
    pub open spec fn eff_story_progression(self) -> Pair<Progress> {
        if self.story_seen {
            self.watchers.story_progression
        } else {
            self.watchers.story_progression.refreshed(self.readings.story_progression)
        }
    }
    /// The value of the `battle_state` pair as any consult this tick sees it.
    pub open spec fn eff_battle_state(self) -> Pair<BattleState> {
        if self.battle_seen {
            self.watchers.battle_state
        } else {
            self.watchers.battle_state.refreshed(self.readings.battle_state)
        }
    }
    /// The value of the `cutscene_type` pair as any consult this tick sees it.
    pub open spec fn eff_cutscene_type(self) -> Pair<u32> {
        if self.cutscene_seen {
            self.watchers.cutscene_type
        } else {
            self.watchers.cutscene_type.refreshed(self.readings.cutscene_type)
        }
    }
    /// The value of the `map_id` pair as any consult this tick sees it.
    pub open spec fn eff_map_id(self) -> Pair<u16> {
        if self.map_seen {
            self.watchers.map_id
        } else {
            self.watchers.map_id.refreshed(self.readings.map_id)
        }
    }
    /// The value of the `formation_id` pair as any consult this tick sees it.
    pub open spec fn eff_formation_id(self) -> Pair<Formation> {
        if self.formation_seen {
            self.watchers.formation_id
        } else {
            self.watchers.formation_id.refreshed(self.readings.formation_id)
        }
    }
    /// The value of the `yu_yevon` pair as any consult this tick sees it.
    pub open spec fn eff_yu_yevon(self) -> Pair<u32> {
        if self.yu_yevon_seen {
            self.watchers.yu_yevon
        } else {
            self.watchers.yu_yevon.refreshed(self.readings.yu_yevon)
        }
    }
    /// The value of the `select_screen` pair as any consult this tick sees it.
    pub open spec fn eff_select_screen(self) -> Pair<u32> {
        if self.select_seen {
            self.watchers.select_screen
        } else {
            self.watchers.select_screen.refreshed(self.readings.select_screen)
        }
    }
    /// The value of the `cursor_position` pair as any consult this tick sees it.
    pub open spec fn eff_cursor_position(self) -> Pair<u32> {
        if self.cursor_seen {
            self.watchers.cursor_position
        } else {
            self.watchers.cursor_position.refreshed(self.readings.cursor_position)
        }
    }
    /// The value of the `input` pair as any consult this tick sees it.
    pub open spec fn eff_input(self) -> Pair<Input> {
        if self.input_seen {
            self.watchers.input
        } else {
            self.watchers.input.refreshed(self.readings.input)
        }
    }

    /// The boss-HP pair as any consult this tick sees it: unlike the other
    /// fields, a failed HP read shifts the pair to the "unknown/alive"
    /// sentinel instead of keeping the stale value.
    pub open spec fn eff_hp_enemy_a(self) -> Pair<u32> {
        if self.hp_seen {
            self.watchers.hp_enemy_a
        } else {
            spec_hp_refreshed(self.watchers.hp_enemy_a, self.readings.hp_enemy_a)
        }
    }

    /// The load-slot pair as any consult this tick sees it, before folding.
    pub open spec fn eff_loading_slot(self) -> Pair<u64> {
        if self.slot_seen {
            self.watchers.loading_slot
        } else {
            self.watchers.loading_slot.refreshed(self.readings.loading_slot)
        }
    }

    /// The folded load-slot pair handed to the rules.
    pub open spec fn eff_loading_slot_value(self) -> Pair<u32> {
        Pair {
            old: spec_slot_value(self.eff_loading_slot().old),
            current: spec_slot_value(self.eff_loading_slot().current),
        }
    }

    pub fn loading(&mut self) -> (r: Pair<Loading>)
        ensures
            r == old(self).eff_loading(),
            *final(self) == (Read {
                watchers: (Watchers { is_loading: old(self).eff_loading(), ..old(self).watchers }),
                loading_seen: true,
                ..*old(self)
            }),
    {
        if !self.loading_seen {
            self.watchers.is_loading.refresh(self.readings.loading);
            self.loading_seen = true;
        }
        self.watchers.is_loading
    }
    pub fn encounter_count(&mut self) -> (r: Pair<u32>)
        ensures
            r == old(self).eff_encounter_count(),
            *final(self) == (Read {
                watchers: (Watchers { encounter_counter: old(self).eff_encounter_count(), ..old(self).watchers }),
                encounter_seen: true,
                ..*old(self)
            }),
    {
        if !self.encounter_seen {
            self.watchers.encounter_counter.refresh(self.readings.encounter_count);
            self.encounter_seen = true;
        }
        self.watchers.encounter_counter
    }
    pub fn level(&mut self) -> (r: Pair<Level>)
        ensures
            r == old(self).eff_level(),
            *final(self) == (Read {
                watchers: (Watchers { current_level: old(self).eff_level(), ..old(self).watchers }),
                level_seen: true,
                ..*old(self)
            }),
    {
        if !self.level_seen {
            self.watchers.current_level.refresh(self.readings.level);
            self.level_seen = true;
        }
        self.watchers.current_level
    }
    pub fn story_progression(&mut self) -> (r: Pair<Progress>)
        ensures
            r == old(self).eff_story_progression(),
            *final(self) == (Read {
                watchers: (Watchers { story_progression: old(self).eff_story_progression(), ..old(self).watchers }),
                story_seen: true,
                ..*old(self)
            }),
    {
        if !self.story_seen {
            self.watchers.story_progression.refresh(self.readings.story_progression);
            self.story_seen = true;
        }
        self.watchers.story_progression
    }
    pub fn battle_state(&mut self) -> (r: Pair<BattleState>)
        ensures
            r == old(self).eff_battle_state(),
            *final(self) == (Read {
                watchers: (Watchers { battle_state: old(self).eff_battle_state(), ..old(self).watchers }),
                battle_seen: true,
                ..*old(self)
            }),
    {
        if !self.battle_seen {
            self.watchers.battle_state.refresh(self.readings.battle_state);
            self.battle_seen = true;
        }
        self.watchers.battle_state
    }
    pub fn cutscene_type(&mut self) -> (r: Pair<u32>)
        ensures
            r == old(self).eff_cutscene_type(),
            *final(self) == (Read {
                watchers: (Watchers { cutscene_type: old(self).eff_cutscene_type(), ..old(self).watchers }),
                cutscene_seen: true,
                ..*old(self)
            }),
    {
        if !self.cutscene_seen {
            self.watchers.cutscene_type.refresh(self.readings.cutscene_type);
            self.cutscene_seen = true;
        }
        self.watchers.cutscene_type
    }
    pub fn map_id(&mut self) -> (r: Pair<u16>)
        ensures
            r == old(self).eff_map_id(),
            *final(self) == (Read {
                watchers: (Watchers { map_id: old(self).eff_map_id(), ..old(self).watchers }),
                map_seen: true,
                ..*old(self)
            }),
    {
        if !self.map_seen {
            self.watchers.map_id.refresh(self.readings.map_id);
            self.map_seen = true;
        }
        self.watchers.map_id
    }
    pub fn formation_id(&mut self) -> (r: Pair<Formation>)
        ensures
            r == old(self).eff_formation_id(),
            *final(self) == (Read {
                watchers: (Watchers { formation_id: old(self).eff_formation_id(), ..old(self).watchers }),
                formation_seen: true,
                ..*old(self)
            }),
    {
        if !self.formation_seen {
            self.watchers.formation_id.refresh(self.readings.formation_id);
            self.formation_seen = true;
        }
        self.watchers.formation_id
    }
    pub fn yu_yevon(&mut self) -> (r: Pair<u32>)
        ensures
            r == old(self).eff_yu_yevon(),
            *final(self) == (Read {
                watchers: (Watchers { yu_yevon: old(self).eff_yu_yevon(), ..old(self).watchers }),
                yu_yevon_seen: true,
                ..*old(self)
            }),
    {
        if !self.yu_yevon_seen {
            self.watchers.yu_yevon.refresh(self.readings.yu_yevon);
            self.yu_yevon_seen = true;
        }
        self.watchers.yu_yevon
    }
    pub fn select_screen(&mut self) -> (r: Pair<u32>)
        ensures
            r == old(self).eff_select_screen(),
            *final(self) == (Read {
                watchers: (Watchers { select_screen: old(self).eff_select_screen(), ..old(self).watchers }),
                select_seen: true,
                ..*old(self)
            }),
    {
        if !self.select_seen {
            self.watchers.select_screen.refresh(self.readings.select_screen);
            self.select_seen = true;
        }
        self.watchers.select_screen
    }
    pub fn cursor_position(&mut self) -> (r: Pair<u32>)
        ensures
            r == old(self).eff_cursor_position(),
            *final(self) == (Read {
                watchers: (Watchers { cursor_position: old(self).eff_cursor_position(), ..old(self).watchers }),
                cursor_seen: true,
                ..*old(self)
            }),
    {
        if !self.cursor_seen {
            self.watchers.cursor_position.refresh(self.readings.cursor_position);
            self.cursor_seen = true;
        }
        self.watchers.cursor_position
    }
    pub fn input(&mut self) -> (r: Pair<Input>)
        ensures
            r == old(self).eff_input(),
            *final(self) == (Read {
                watchers: (Watchers { input: old(self).eff_input(), ..old(self).watchers }),
                input_seen: true,
                ..*old(self)
            }),
    {
        if !self.input_seen {
            self.watchers.input.refresh(self.readings.input);
            self.input_seen = true;
        }
        self.watchers.input
    }

    pub fn hp_enemy_a(&mut self) -> (r: Pair<u32>)
        ensures
            r == old(self).eff_hp_enemy_a(),
            *final(self) == (Read {
                watchers: (Watchers { hp_enemy_a: old(self).eff_hp_enemy_a(), ..old(self).watchers }),
                hp_seen: true,
                ..*old(self)
            }),
    {
        if !self.hp_seen {
            let value = match self.readings.hp_enemy_a {
                Some(v) => v,
                None => Hp::default().0,
            };
            self.watchers.hp_enemy_a.update(value);
            self.hp_seen = true;
        }
        self.watchers.hp_enemy_a
    }

    pub fn loading_slot(&mut self) -> (r: Pair<u32>)
        ensures
            r == old(self).eff_loading_slot_value(),
            *final(self) == (Read {
                watchers: (Watchers { loading_slot: old(self).eff_loading_slot(), ..old(self).watchers }),
                slot_seen: true,
                ..*old(self)
            }),
    {
        if !self.slot_seen {
            self.watchers.loading_slot.refresh(self.readings.loading_slot);
            self.slot_seen = true;
        }
        let p = self.watchers.loading_slot;
        Pair { old: slot_value(p.old), current: slot_value(p.current) }
    }
}

} // verus!
