//! The battle-completion, progress-advance and final-boss split rules.
//!
//! Each rule is a pure decision over (old, new) snapshot pairs; the executable
//! functions consult auxiliary fields lazily through the per-tick [`Read`]
//! cache and are proved to return exactly what the spec tables say.

use vstd::prelude::*;

use crate::pair::Pair;
use crate::splits::Splits;
use crate::telemetry::{BattleState, Formation, Progress};
use crate::telemetry::{
    PROGRESS_AMMES, PROGRESS_BFA, PROGRESS_BIKANEL_KIMAHRI, PROGRESS_BIKANEL_RIKKU,
    PROGRESS_BIRAN_YENKE, PROGRESS_CHOCOBO_EATER, PROGRESS_CRAWLER, PROGRESS_ECHUILLES,
    PROGRESS_EVRAE, PROGRESS_EXTRACTOR, PROGRESS_FLUX, PROGRESS_GARUDA, PROGRESS_GENEAUX,
    PROGRESS_GUARDS, PROGRESS_GUI, PROGRESS_HOME, PROGRESS_HOME2, PROGRESS_ISAARU,
    PROGRESS_KIMAHRI, PROGRESS_KLIKK, PROGRESS_LAGOON, PROGRESS_MRR, PROGRESS_NATUS,
    PROGRESS_OBLITZERATOR, PROGRESS_OMNIS, PROGRESS_OVERDRIVE_SIN, PROGRESS_SANCTUARY_KEEPER,
    PROGRESS_SEYMOUR, PROGRESS_SIN_CORE, PROGRESS_SPHERIMORPH, PROGRESS_TROS, PROGRESS_WENDIGO,
    PROGRESS_YUNALESCA, PROGRESS_YU_YEVON,
};
use crate::watch::{Read, Watchers};

verus! {

// Cutscene-type values that confirm a progress advance.
pub const CUTSCENE_LAGOON: u32 = 73;
pub const CUTSCENE_MRR: u32 = 940;

/// Whether an encounter guard holds: the current map id and formation word
/// match the expected encounter.
pub open spec fn spec_encounter(map: u16, form: Formation, m: u16, id1: u8, id2: u8) -> bool {
    map == m && form.spec_is(id1, id2)
}

/// The map id that the battle rule's encounter guard for this milestone
/// compares against, if the milestone has such a guard.
pub open spec fn spec_battle_guard_map(progress: u32, extended: bool) -> Option<u16> {
    if progress == PROGRESS_GARUDA {
        Option::Some(17u16)
    } else if progress == PROGRESS_WENDIGO {
        Option::Some(44u16)
    } else if extended && progress == PROGRESS_BIKANEL_RIKKU {
        Option::Some(48u16)
    } else if extended && progress == PROGRESS_HOME {
        Option::Some(87u16)
    } else if extended && progress == PROGRESS_HOME2 {
        Option::Some(87u16)
    } else if progress == PROGRESS_GUARDS {
        Option::Some(53u16)
    } else if progress == PROGRESS_ISAARU {
        Option::Some(54u16)
    } else {
        Option::None
    }
}

/// The battle-completion rule: keyed by the current progress milestone, it
/// fires when the battle is over and the milestone's own guard (fanfare bit,
/// or an expected encounter) holds.
#[verifier::opaque]
pub open spec fn spec_battle_split(
    progress: u32,
    battle: BattleState,
    map: u16,
    form: Formation,
    extended: bool,
) -> Option<Splits> {
    if !battle.spec_is_over() {
        Option::None
    } else if progress == PROGRESS_AMMES {
        Option::Some(Splits::Ammes)
    } else if progress == PROGRESS_KLIKK {
        if battle.spec_fanfare() {
            Option::Some(Splits::Klikk)
        } else {
            Option::None
        }
    } else if progress == PROGRESS_TROS {
        Option::Some(Splits::Tros)
    } else if progress == PROGRESS_KIMAHRI {
        Option::Some(Splits::Kimahri)
    } else if progress == PROGRESS_ECHUILLES {
        Option::Some(Splits::Echuilles)
    } else if progress == PROGRESS_GENEAUX {
        Option::Some(Splits::Geneaux)
    } else if progress == PROGRESS_OBLITZERATOR {
        Option::Some(Splits::Oblitzerator)
    } else if progress == PROGRESS_GARUDA {
        if spec_encounter(map, form, 17, 0, 1) {
            Option::Some(Splits::Garuda)
        } else {
            Option::None
        }
    } else if progress == PROGRESS_CHOCOBO_EATER {
        Option::Some(Splits::ChocoboEater)
    } else if progress == PROGRESS_GUI {
        Option::Some(Splits::Gui)
    } else if progress == PROGRESS_EXTRACTOR {
        Option::Some(Splits::Extractor)
    } else if progress == PROGRESS_SPHERIMORPH {
        Option::Some(Splits::Spherimorph)
    } else if progress == PROGRESS_CRAWLER {
        Option::Some(Splits::Crawler)
    } else if progress == PROGRESS_SEYMOUR {
        Option::Some(Splits::Seymour)
    } else if progress == PROGRESS_WENDIGO {
        if spec_encounter(map, form, 44, 0, 1) {
            Option::Some(Splits::Wendigo)
        } else {
            Option::None
        }
    } else if extended && progress == PROGRESS_BIKANEL_RIKKU {
        if spec_encounter(map, form, 48, 2, 0) {
            Option::Some(Splits::BikanelYeet)
        } else {
            Option::None
        }
    } else if extended && progress == PROGRESS_HOME {
        if spec_encounter(map, form, 87, 0, 0) {
            Option::Some(Splits::Bombs)
        } else if spec_encounter(map, form, 87, 0, 2) {
            Option::Some(Splits::DualHorns)
        } else {
            Option::None
        }
    } else if extended && progress == PROGRESS_HOME2 {
        if spec_encounter(map, form, 87, 0, 3) {
            Option::Some(Splits::Chimeras)
        } else {
            Option::None
        }
    } else if progress == PROGRESS_EVRAE {
        Option::Some(Splits::Evrae)
    } else if progress == PROGRESS_GUARDS {
        if extended && spec_encounter(map, form, 53, 0, 0) {
            Option::Some(Splits::Guards1)
        } else if extended && spec_encounter(map, form, 53, 0, 1) {
            Option::Some(Splits::Guards2)
        } else if spec_encounter(map, form, 53, 0, 2) {
            Option::Some(Splits::Guards)
        } else {
            Option::None
        }
    } else if progress == PROGRESS_ISAARU {
        if spec_encounter(map, form, 54, 2, 2) {
            Option::Some(Splits::Isaaru)
        } else {
            Option::None
        }
    } else if progress == PROGRESS_NATUS {
        Option::Some(Splits::Natus)
    } else if progress == PROGRESS_BIRAN_YENKE {
        if battle.spec_fanfare() {
            Option::Some(Splits::BiranYenke)
        } else {
            Option::None
        }
    } else if progress == PROGRESS_FLUX {
        Option::Some(Splits::Flux)
    } else if progress == PROGRESS_SANCTUARY_KEEPER {
        Option::Some(Splits::SanctuaryKeeper)
    } else if progress == PROGRESS_YUNALESCA {
        Option::Some(Splits::Yunalesca)
    } else if progress == PROGRESS_SIN_CORE {
        Option::Some(Splits::Core)
    } else if progress == PROGRESS_OVERDRIVE_SIN {
        Option::Some(Splits::Overdrive)
    } else if progress == PROGRESS_OMNIS {
        Option::Some(Splits::Omnis)
    } else if progress == PROGRESS_BFA {
        Option::Some(Splits::Bfa)
    } else {
        Option::None
    }
}

/// Whether the battle rule consults the map id this tick.
pub open spec fn spec_battle_consults_map(progress: u32, battle: BattleState, extended: bool) -> bool {
    battle.spec_is_over() && spec_battle_guard_map(progress, extended) matches Option::Some(_)
}

/// Whether the battle rule goes on to consult the formation id: only once
/// the map id matched the guard's expected map.
pub open spec fn spec_battle_consults_formation(
    progress: u32,
    battle: BattleState,
    map: u16,
    extended: bool,
) -> bool {
    &&& spec_battle_consults_map(progress, battle, extended)
    &&& spec_battle_guard_map(progress, extended) matches Option::Some(m) && map == m
}

/// The progress-advance rule: fires only when progress strictly increased
/// past a known milestone and the confirming cutscene type was observed on
/// either side of its pair.
pub open spec fn spec_advance_split(
    progress: Pair<Progress>,
    cutscene: Pair<u32>,
    extended: bool,
) -> Option<Splits> {
    if progress.current.0 <= progress.old.0 {
        Option::None
    } else if progress.old.0 == PROGRESS_LAGOON {
        if cutscene.spec_either(CUTSCENE_LAGOON) {
            Option::Some(Splits::Lagoon)
        } else {
            Option::None
        }
    } else if progress.old.0 == PROGRESS_MRR {
        if cutscene.spec_either(CUTSCENE_MRR) {
            Option::Some(Splits::Mrr)
        } else {
            Option::None
        }
    } else if extended && progress.old.0 == PROGRESS_BIKANEL_KIMAHRI && progress.current.0
        == PROGRESS_BIKANEL_RIKKU {
        Option::Some(Splits::BikanelParty)
    } else {
        Option::None
    }
}

/// Whether the advance rule consults the cutscene type this tick.
pub open spec fn spec_advance_consults_cutscene(progress: Pair<Progress>) -> bool {
    progress.current.0 > progress.old.0 && (progress.old.0 == PROGRESS_LAGOON || progress.old.0
        == PROGRESS_MRR)
}

/// The single-shot final rule: at the last milestone, the final boss's HP
/// hitting exactly zero fires the final split.
pub open spec fn spec_yu_yevon_split(progress: Progress, hp: Pair<u32>) -> Option<Splits> {
    if progress.0 == PROGRESS_YU_YEVON && hp.current == 0 {
        Option::Some(Splits::YuYevon)
    } else {
        Option::None
    }
}

/// Law: the progress-advance rule never fires when progress did not strictly
/// increase, whatever the cutscene pair holds.
pub proof fn lemma_advance_requires_increase(
    progress: Pair<Progress>,
    cutscene: Pair<u32>,
    extended: bool,
)
    requires
        progress.current.0 <= progress.old.0,
    ensures
        spec_advance_split(progress, cutscene, extended) == Option::<Splits>::None,
{
}

/// Consults the map id and, only when it matches, the formation id, and
/// reports whether the expected encounter is the current one.
fn encounter_is(read: &mut Read, m: u16, id1: u8, id2: u8) -> (r: bool)
    ensures
        r == spec_encounter(
            old(read).eff_map_id().current,
            old(read).eff_formation_id().current,
            m,
            id1,
            id2,
        ),
        *final(read) == (Read {
            watchers: (Watchers {
                map_id: old(read).eff_map_id(),
                formation_id: if old(read).eff_map_id().current == m {
                    old(read).eff_formation_id()
                } else {
                    old(read).watchers.formation_id
                },
                ..old(read).watchers
            }),
            map_seen: true,
            formation_seen: old(read).formation_seen || old(read).eff_map_id().current == m,
            ..*old(read)
        }),
{
    let map = read.map_id();
    if map.current == m {
        let form = read.formation_id();
        form.current.is(id1, id2)
    } else {
        false
    }
}

impl Progress {
    /// The battle-completion rule; `self` is the current milestone value.
    /// Consults the map and formation ids lazily, only for milestones whose
    /// guard needs them.
    pub fn split_battle(self, battle_state: Pair<BattleState>, read: &mut Read, extended: bool) -> (r:
        Option<Splits>)
        ensures
            r == spec_battle_split(
                self.0,
                battle_state.current,
                old(read).eff_map_id().current,
                old(read).eff_formation_id().current,
                extended,
            ),
            *final(read) == (Read {
                watchers: (Watchers {
                    map_id: if spec_battle_consults_map(self.0, battle_state.current, extended) {
                        old(read).eff_map_id()
                    } else {
                        old(read).watchers.map_id
                    },
                    formation_id: if spec_battle_consults_formation(
                        self.0,
                        battle_state.current,
                        old(read).eff_map_id().current,
                        extended,
                    ) {
                        old(read).eff_formation_id()
                    } else {
                        old(read).watchers.formation_id
                    },
                    ..old(read).watchers
                }),
                map_seen: old(read).map_seen || spec_battle_consults_map(
                    self.0,
                    battle_state.current,
                    extended,
                ),
                formation_seen: old(read).formation_seen || spec_battle_consults_formation(
                    self.0,
                    battle_state.current,
                    old(read).eff_map_id().current,
                    extended,
                ),
                ..*old(read)
            }),
    {
        proof {
            reveal(spec_battle_split);
        }
        if !battle_state.current.is_over() {
            return None;
        }
        let p = self.0;
        if p == PROGRESS_AMMES {
            return Some(Splits::Ammes);
        }
        if p == PROGRESS_KLIKK {
            return if battle_state.current.fanfare() {
                Some(Splits::Klikk)
            } else {
                None
            };
        }
        if p == PROGRESS_TROS {
            return Some(Splits::Tros);
        }
        if p == PROGRESS_KIMAHRI {
            return Some(Splits::Kimahri);
        }
        if p == PROGRESS_ECHUILLES {
            return Some(Splits::Echuilles);
        }
        if p == PROGRESS_GENEAUX {
            return Some(Splits::Geneaux);
        }
        if p == PROGRESS_OBLITZERATOR {
            return Some(Splits::Oblitzerator);
        }
        if p == PROGRESS_GARUDA {
            return if encounter_is(read, 17, 0, 1) {
                Some(Splits::Garuda)
            } else {
                None
            };
        }
        if p == PROGRESS_CHOCOBO_EATER {
            return Some(Splits::ChocoboEater);
        }
        if p == PROGRESS_GUI {
            return Some(Splits::Gui);
        }
        if p == PROGRESS_EXTRACTOR {
            return Some(Splits::Extractor);
        }
        if p == PROGRESS_SPHERIMORPH {
            return Some(Splits::Spherimorph);
        }
        if p == PROGRESS_CRAWLER {
            return Some(Splits::Crawler);
        }
        if p == PROGRESS_SEYMOUR {
            return Some(Splits::Seymour);
        }
        if p == PROGRESS_WENDIGO {
            return if encounter_is(read, 44, 0, 1) {
                Some(Splits::Wendigo)
            } else {
                None
            };
        }
        if extended && p == PROGRESS_BIKANEL_RIKKU {
            return if encounter_is(read, 48, 2, 0) {
                Some(Splits::BikanelYeet)
            } else {
                None
            };
        }
        if extended && p == PROGRESS_HOME {
            if encounter_is(read, 87, 0, 0) {
                return Some(Splits::Bombs);
            }
            if encounter_is(read, 87, 0, 2) {
                return Some(Splits::DualHorns);
            }
            return None;
        }
        if extended && p == PROGRESS_HOME2 {
            return if encounter_is(read, 87, 0, 3) {
                Some(Splits::Chimeras)
            } else {
                None
            };
        }
        if p == PROGRESS_EVRAE {
            return Some(Splits::Evrae);
        }
        if p == PROGRESS_GUARDS {
            if extended {
                if encounter_is(read, 53, 0, 0) {
                    return Some(Splits::Guards1);
                }
                if encounter_is(read, 53, 0, 1) {
                    return Some(Splits::Guards2);
                }
            }
            return if encounter_is(read, 53, 0, 2) {
                Some(Splits::Guards)
            } else {
                None
            };
        }
        if p == PROGRESS_ISAARU {
            return if encounter_is(read, 54, 2, 2) {
                Some(Splits::Isaaru)
            } else {
                None
            };
        }
        if p == PROGRESS_NATUS {
            return Some(Splits::Natus);
        }
        if p == PROGRESS_BIRAN_YENKE {
            return if battle_state.current.fanfare() {
                Some(Splits::BiranYenke)
            } else {
                None
            };
        }
        if p == PROGRESS_FLUX {
            return Some(Splits::Flux);
        }
        if p == PROGRESS_SANCTUARY_KEEPER {
            return Some(Splits::SanctuaryKeeper);
        }
        if p == PROGRESS_YUNALESCA {
            return Some(Splits::Yunalesca);
        }
        if p == PROGRESS_SIN_CORE {
            return Some(Splits::Core);
        }
        if p == PROGRESS_OVERDRIVE_SIN {
            return Some(Splits::Overdrive);
        }
        if p == PROGRESS_OMNIS {
            return Some(Splits::Omnis);
        }
        if p == PROGRESS_BFA {
            return Some(Splits::Bfa);
        }
        None
    }

    /// The progress-advance rule; `self` is the current milestone value and
    /// `previous` the one before.  Consults the cutscene type lazily.
    pub fn split_advance(self, previous: Progress, read: &mut Read, extended: bool) -> (r: Option<
        Splits,
    >)
        ensures
            r == spec_advance_split(
                Pair { old: previous, current: self },
                old(read).eff_cutscene_type(),
                extended,
            ),
            *final(read) == (Read {
                watchers: (Watchers {
                    cutscene_type: if spec_advance_consults_cutscene(
                        Pair { old: previous, current: self },
                    ) {
                        old(read).eff_cutscene_type()
                    } else {
                        old(read).watchers.cutscene_type
                    },
                    ..old(read).watchers
                }),
                cutscene_seen: old(read).cutscene_seen || spec_advance_consults_cutscene(
                    Pair { old: previous, current: self },
                ),
                ..*old(read)
            }),
    {
        if self.0 <= previous.0 {
            return None;
        }
        if previous.0 == PROGRESS_LAGOON {
            let cutscene = read.cutscene_type();
            return if cutscene.either(CUTSCENE_LAGOON) {
                Some(Splits::Lagoon)
            } else {
                None
            };
        }
        if previous.0 == PROGRESS_MRR {
            let cutscene = read.cutscene_type();
            return if cutscene.either(CUTSCENE_MRR) {
                Some(Splits::Mrr)
            } else {
                None
            };
        }
        if extended && previous.0 == PROGRESS_BIKANEL_KIMAHRI && self.0 == PROGRESS_BIKANEL_RIKKU {
            return Some(Splits::BikanelParty);
        }
        None
    }

    /// The single-shot final rule; `self` is the current milestone value.
    /// Consults the final boss's HP lazily, only at the last milestone.
    pub fn split_yu_yevon(self, read: &mut Read) -> (r: Option<Splits>)
        ensures
            r == spec_yu_yevon_split(self, old(read).eff_hp_enemy_a()),
            *final(read) == (Read {
                watchers: (Watchers {
                    hp_enemy_a: if self.0 == PROGRESS_YU_YEVON {
                        old(read).eff_hp_enemy_a()
                    } else {
                        old(read).watchers.hp_enemy_a
                    },
                    ..old(read).watchers
                }),
                hp_seen: old(read).hp_seen || self.0 == PROGRESS_YU_YEVON,
                ..*old(read)
            }),
    {
        if self.0 == PROGRESS_YU_YEVON {
            let hp = read.hp_enemy_a();
            if hp.current == 0 {
                return Some(Splits::YuYevon);
            }
        }
        None
    }
}

} // verus!
