//! The telemetry field types: small integer and bitflag values read from the
//! watched game, with the predicates the split rules are built from.

use vstd::prelude::*;

use crate::pair::SnapshotValue;
use crate::splits::Splits;

verus! {

// Zone (level) identifiers that take part in split decisions.
pub const LEVEL_BESAID_VILLAGE: u32 = 17;
pub const LEVEL_KILIKA_WOODS: u32 = 18;
pub const LEVEL_BESAID_BEACH: u32 = 20;
pub const LEVEL_BESAID_END_ROAD: u32 = 22;
pub const LEVEL_NEW_GAME: u32 = 23;
pub const LEVEL_KILIKA_FAYTH: u32 = 45;
pub const LEVEL_KILIKA_RESIDENTIAL_AREA: u32 = 46;
pub const LEVEL_HIGHROAD_AGENCY: u32 = 58;
pub const LEVEL_HIGHROAD_NORTH_END: u32 = 59;
pub const LEVEL_BESAID_VILLAGE_ROAD: u32 = 69;
pub const LEVEL_MOONFLOW_SOUTH_BANK_ROAD: u32 = 75;
pub const LEVEL_DJOSE_PILGRIMAGE_ROAD: u32 = 76;
pub const LEVEL_KILIKA_TEMPLE: u32 = 78;
pub const LEVEL_MUSHROOM_ROCK_ROAD: u32 = 79;
pub const LEVEL_MACALANIA_ANTECHAMBER: u32 = 80;
pub const LEVEL_DJOSE_OUTSIDE: u32 = 82;
pub const LEVEL_DJOSE_FAYTH: u32 = 90;
pub const LEVEL_DJOSE_HIGHROAD: u32 = 93;
pub const LEVEL_MACALANIA_LAKE: u32 = 102;
pub const LEVEL_MOONFLOW_SOUTH_BANK: u32 = 105;
pub const LEVEL_MACALANIA_TEMPLE: u32 = 106;
pub const LEVEL_MACALANIA_WOODS_SOUTH: u32 = 110;
pub const LEVEL_HIGHROAD_CENTRAL: u32 = 127;
pub const LEVEL_HOME_ENTRANCE: u32 = 130;
pub const LEVEL_MUSHROOM_ROCK_AFTERMATH: u32 = 131;
pub const LEVEL_GUADOSALAM: u32 = 135;
pub const LEVEL_BIKANEL_NORTH: u32 = 138;
pub const LEVEL_THUNDERPLAINS_SOUTH: u32 = 140;
pub const LEVEL_MACALANIA_TEMPLE_ROAD: u32 = 153;
pub const LEVEL_THUNDERPLAINS_NORTH: u32 = 162;
pub const LEVEL_MACALANIA_LAKE_SHOP: u32 = 164;
pub const LEVEL_CREVASSE: u32 = 192;
pub const LEVEL_STADIUM_POOL: u32 = 212;
pub const LEVEL_HOME_ENVIRONMENT_CONTROLS: u32 = 219;
pub const LEVEL_MACALANIA_SPRING: u32 = 221;
pub const LEVEL_CALM_LANDS: u32 = 223;
pub const LEVEL_BEVELLE_ANTECHAMBER: u32 = 226;
pub const LEVEL_MACALANIA_HALLWAY: u32 = 239;
pub const LEVEL_MACALANIA_WOODS_NORTH: u32 = 242;
pub const LEVEL_MACALANIA_SPHERIMORPH: u32 = 248;
pub const LEVEL_STADIUM_STANDS: u32 = 250;
pub const LEVEL_CALM_LANDS_BRIDGE: u32 = 279;
pub const LEVEL_HOME_MAIN_CORRIDOR: u32 = 280;
pub const LEVEL_BEVELLE_TRIALS: u32 = 306;
pub const LEVEL_ZANARKAND_DOME: u32 = 316;
pub const LEVEL_TETRIS_ENTRANCE: u32 = 320;
pub const LEVEL_NUCLEUS: u32 = 324;
pub const LEVEL_DREAMS_END: u32 = 325;

// Story-progress milestone values that take part in split decisions.
pub const PROGRESS_AMMES: u32 = 15;
pub const PROGRESS_KLIKK: u32 = 55;
pub const PROGRESS_TROS: u32 = 76;
pub const PROGRESS_LAGOON: u32 = 119;
pub const PROGRESS_KIMAHRI: u32 = 214;
pub const PROGRESS_ECHUILLES: u32 = 280;
pub const PROGRESS_GENEAUX: u32 = 322;
pub const PROGRESS_OBLITZERATOR: u32 = 502;
pub const PROGRESS_GARUDA: u32 = 600;
pub const PROGRESS_CHOCOBO_EATER: u32 = 770;
pub const PROGRESS_MRR: u32 = 835;
pub const PROGRESS_GUI: u32 = 865;
pub const PROGRESS_EXTRACTOR: u32 = 1060;
pub const PROGRESS_SPHERIMORPH: u32 = 1420;
pub const PROGRESS_CRAWLER: u32 = 1485;
pub const PROGRESS_SEYMOUR: u32 = 1540;
pub const PROGRESS_WENDIGO: u32 = 1570;
pub const PROGRESS_BIKANEL_KIMAHRI: u32 = 1718;
pub const PROGRESS_BIKANEL_RIKKU: u32 = 1720;
pub const PROGRESS_HOME: u32 = 1820;
pub const PROGRESS_HOME2: u32 = 1885;
pub const PROGRESS_EVRAE: u32 = 2040;
pub const PROGRESS_GUARDS: u32 = 2080;
pub const PROGRESS_ISAARU: u32 = 2220;
pub const PROGRESS_NATUS: u32 = 2280;
pub const PROGRESS_BIRAN_YENKE: u32 = 2510;
pub const PROGRESS_FLUX: u32 = 2530;
pub const PROGRESS_SANCTUARY_KEEPER: u32 = 2585;
pub const PROGRESS_YUNALESCA: u32 = 2815;
pub const PROGRESS_SIN_CORE: u32 = 3105;
pub const PROGRESS_OVERDRIVE_SIN: u32 = 3135;
pub const PROGRESS_OMNIS: u32 = 3205;
pub const PROGRESS_BFA: u32 = 3300;
pub const PROGRESS_YU_YEVON: u32 = 3380;

// Loading-state words.
pub const LOADING_SELECTION: u32 = 1;
pub const LOADING_ACTIVE: u32 = 2;

// The confirm bit inside the input word.
pub const INPUT_CONFIRM: u32 = 32;

// Battle-state bits inside one 32-bit word.
pub const BATTLE_ONGOING: u32 = 0x0000000A;
pub const BATTLE_IS_OVER: u32 = 0x00000200;
pub const BATTLE_ESCAPED: u32 = 0x00000100;
pub const BATTLE_FANFARE: u32 = 0x00010000;
pub const BATTLE_CHAINED: u32 = 0x01000000;

// Sentinel for a boss-HP value that could not be read: treated as
// "unknown/alive", never as a kill.
pub const HP_UNKNOWN: u32 = 0xFFFF_FFFF;

/// The loading-state word of the game.
#[derive(Clone, Copy, Debug, PartialEq, Eq, Structural)]
pub struct Loading(pub u32);

impl Loading {
    pub open spec fn spec_not_loading(self) -> bool {
        self.0 == 0
    }

    pub open spec fn spec_is_loading(self) -> bool {
        self.0 == LOADING_ACTIVE
    }

    pub open spec fn spec_on_loading_screen(self) -> bool {
        self.0 == LOADING_SELECTION
    }

    pub fn not_loading(self) -> (r: bool)
        ensures
            r == self.spec_not_loading(),
    {
        self.0 == 0
    }

    pub fn is_loading(self) -> (r: bool)
        ensures
            r == self.spec_is_loading(),
    {
        self.0 == LOADING_ACTIVE
    }

    pub fn on_loading_screen(self) -> (r: bool)
        ensures
            r == self.spec_on_loading_screen(),
    {
        self.0 == LOADING_SELECTION
    }
}

/// The controller-input word of the game.
#[derive(Clone, Copy, Debug, PartialEq, Eq, Structural)]
pub struct Input(pub u32);

impl Input {
    pub open spec fn spec_confirm_pressed(self) -> bool {
        self.0 & INPUT_CONFIRM == INPUT_CONFIRM
    }

    pub fn confirm_pressed(self) -> (r: bool)
        ensures
            r == self.spec_confirm_pressed(),
    {
        self.0 & INPUT_CONFIRM == INPUT_CONFIRM
    }
}

/// The enumerated zone (room) identifier.
#[derive(Clone, Copy, Debug, PartialEq, Eq, Structural)]
pub struct Level(pub u32);

impl Level {
    pub open spec fn spec_new_game(self) -> bool {
        self.0 == LEVEL_NEW_GAME
    }

    /// True while the game shows the title / load-menu context.
    pub fn new_game(self) -> (r: bool)
        ensures
            r == self.spec_new_game(),
    {
        self.0 == LEVEL_NEW_GAME
    }

    /// The level-transition rule: an exact-match table keyed by the
    /// (old, new) zone pair and nothing else.  Rows past the base game
    /// profile fire only in extended mode.
    #[verifier::opaque]
    pub open spec fn spec_transition(previous: Level, new: Level, extended: bool) -> Option<Splits> {
        if false {
            Option::None
        } else if previous.0 == LEVEL_BESAID_VILLAGE && new.0 == LEVEL_BESAID_VILLAGE_ROAD {
            Option::Some(Splits::Valefor)
        } else if previous.0 == LEVEL_BESAID_END_ROAD && new.0 == LEVEL_BESAID_BEACH {
            Option::Some(Splits::Besaid)
        } else if previous.0 == LEVEL_KILIKA_FAYTH && new.0 == LEVEL_KILIKA_TEMPLE {
            Option::Some(Splits::Ifrit)
        } else if previous.0 == LEVEL_KILIKA_WOODS && new.0 == LEVEL_KILIKA_RESIDENTIAL_AREA {
            Option::Some(Splits::Kilika)
        } else if previous.0 == LEVEL_STADIUM_POOL && new.0 == LEVEL_STADIUM_STANDS {
            Option::Some(Splits::Blitzball)
        } else if previous.0 == LEVEL_HIGHROAD_CENTRAL && new.0 == LEVEL_HIGHROAD_AGENCY {
            Option::Some(Splits::MiihenRoad)
        } else if previous.0 == LEVEL_HIGHROAD_NORTH_END && new.0 == LEVEL_MUSHROOM_ROCK_ROAD {
            Option::Some(Splits::OldRoad)
        } else if previous.0 == LEVEL_MUSHROOM_ROCK_ROAD && new.0 == LEVEL_MUSHROOM_ROCK_AFTERMATH {
            Option::Some(Splits::MrrSkip)
        } else if previous.0 == LEVEL_DJOSE_HIGHROAD && new.0 == LEVEL_DJOSE_PILGRIMAGE_ROAD {
            Option::Some(Splits::DjoseRoad)
        } else if previous.0 == LEVEL_DJOSE_FAYTH && new.0 == LEVEL_DJOSE_OUTSIDE {
            Option::Some(Splits::Ixion)
        } else if previous.0 == LEVEL_MOONFLOW_SOUTH_BANK_ROAD && new.0 == LEVEL_MOONFLOW_SOUTH_BANK {
            Option::Some(Splits::Moonflow)
        } else if previous.0 == LEVEL_GUADOSALAM && new.0 == LEVEL_THUNDERPLAINS_SOUTH {
            Option::Some(Splits::Guadosalam)
        } else if previous.0 == LEVEL_THUNDERPLAINS_NORTH && new.0 == LEVEL_MACALANIA_WOODS_SOUTH {
            Option::Some(Splits::ThunderPlains)
        } else if previous.0 == LEVEL_MACALANIA_WOODS_NORTH && new.0 == LEVEL_MACALANIA_SPRING {
            Option::Some(Splits::MacalaniaWoods)
        } else if extended && previous.0 == LEVEL_MACALANIA_SPRING && new.0 == LEVEL_MACALANIA_SPHERIMORPH {
            Option::Some(Splits::OakaShop)
        } else if extended && previous.0 == LEVEL_MACALANIA_SPRING && new.0 == LEVEL_MACALANIA_LAKE_SHOP {
            Option::Some(Splits::CrawlerGrid)
        } else if extended && previous.0 == LEVEL_MACALANIA_TEMPLE_ROAD && new.0 == LEVEL_MACALANIA_TEMPLE {
            Option::Some(Splits::SeymourGrid)
        } else if extended && previous.0 == LEVEL_MACALANIA_ANTECHAMBER && new.0 == LEVEL_MACALANIA_HALLWAY {
            Option::Some(Splits::WendigoGrid)
        } else if previous.0 == LEVEL_MACALANIA_TEMPLE && new.0 == LEVEL_MACALANIA_TEMPLE_ROAD {
            Option::Some(Splits::Shiva)
        } else if extended && previous.0 == LEVEL_CREVASSE && new.0 == LEVEL_MACALANIA_LAKE {
            Option::Some(Splits::Crevasse)
        } else if previous.0 == LEVEL_BIKANEL_NORTH && new.0 == LEVEL_HOME_ENTRANCE {
            Option::Some(Splits::Bikanel)
        } else if previous.0 == LEVEL_HOME_MAIN_CORRIDOR && new.0 == LEVEL_HOME_ENVIRONMENT_CONTROLS {
            Option::Some(Splits::Home)
        } else if previous.0 == LEVEL_BEVELLE_TRIALS && new.0 == LEVEL_BEVELLE_ANTECHAMBER {
            Option::Some(Splits::Bahamut)
        } else if previous.0 == LEVEL_CALM_LANDS && new.0 == LEVEL_CALM_LANDS_BRIDGE {
            Option::Some(Splits::CalmLands)
        } else if previous.0 == LEVEL_ZANARKAND_DOME && new.0 == LEVEL_TETRIS_ENTRANCE {
            Option::Some(Splits::Zanarkand)
        } else if previous.0 == LEVEL_NUCLEUS && new.0 == LEVEL_DREAMS_END {
            Option::Some(Splits::Eggs)
        } else {
            Option::None
        }
    }

    /// Looks the (old, new) zone pair up in the transition table; `self` is
    /// the new zone.
    pub fn split(self, previous: Level, extended: bool) -> (r: Option<Splits>)
        ensures
            r == Level::spec_transition(previous, self, extended),
    {
        proof {
            reveal(Level::spec_transition);
        }
        let new = self;
        if previous.0 == new.0 {
            return None;
        }
        if false {
            Option::None
        } else if previous.0 == LEVEL_BESAID_VILLAGE && new.0 == LEVEL_BESAID_VILLAGE_ROAD {
            Option::Some(Splits::Valefor)
        } else if previous.0 == LEVEL_BESAID_END_ROAD && new.0 == LEVEL_BESAID_BEACH {
            Option::Some(Splits::Besaid)
        } else if previous.0 == LEVEL_KILIKA_FAYTH && new.0 == LEVEL_KILIKA_TEMPLE {
            Option::Some(Splits::Ifrit)
        } else if previous.0 == LEVEL_KILIKA_WOODS && new.0 == LEVEL_KILIKA_RESIDENTIAL_AREA {
            Option::Some(Splits::Kilika)
        } else if previous.0 == LEVEL_STADIUM_POOL && new.0 == LEVEL_STADIUM_STANDS {
            Option::Some(Splits::Blitzball)
        } else if previous.0 == LEVEL_HIGHROAD_CENTRAL && new.0 == LEVEL_HIGHROAD_AGENCY {
            Option::Some(Splits::MiihenRoad)
        } else if previous.0 == LEVEL_HIGHROAD_NORTH_END && new.0 == LEVEL_MUSHROOM_ROCK_ROAD {
            Option::Some(Splits::OldRoad)
        } else if previous.0 == LEVEL_MUSHROOM_ROCK_ROAD && new.0 == LEVEL_MUSHROOM_ROCK_AFTERMATH {
            Option::Some(Splits::MrrSkip)
        } else if previous.0 == LEVEL_DJOSE_HIGHROAD && new.0 == LEVEL_DJOSE_PILGRIMAGE_ROAD {
            Option::Some(Splits::DjoseRoad)
        } else if previous.0 == LEVEL_DJOSE_FAYTH && new.0 == LEVEL_DJOSE_OUTSIDE {
            Option::Some(Splits::Ixion)
        } else if previous.0 == LEVEL_MOONFLOW_SOUTH_BANK_ROAD && new.0 == LEVEL_MOONFLOW_SOUTH_BANK {
            Option::Some(Splits::Moonflow)
        } else if previous.0 == LEVEL_GUADOSALAM && new.0 == LEVEL_THUNDERPLAINS_SOUTH {
            Option::Some(Splits::Guadosalam)
        } else if previous.0 == LEVEL_THUNDERPLAINS_NORTH && new.0 == LEVEL_MACALANIA_WOODS_SOUTH {
            Option::Some(Splits::ThunderPlains)
        } else if previous.0 == LEVEL_MACALANIA_WOODS_NORTH && new.0 == LEVEL_MACALANIA_SPRING {
            Option::Some(Splits::MacalaniaWoods)
        } else if extended && previous.0 == LEVEL_MACALANIA_SPRING && new.0 == LEVEL_MACALANIA_SPHERIMORPH {
            Option::Some(Splits::OakaShop)
        } else if extended && previous.0 == LEVEL_MACALANIA_SPRING && new.0 == LEVEL_MACALANIA_LAKE_SHOP {
            Option::Some(Splits::CrawlerGrid)
        } else if extended && previous.0 == LEVEL_MACALANIA_TEMPLE_ROAD && new.0 == LEVEL_MACALANIA_TEMPLE {
            Option::Some(Splits::SeymourGrid)
        } else if extended && previous.0 == LEVEL_MACALANIA_ANTECHAMBER && new.0 == LEVEL_MACALANIA_HALLWAY {
            Option::Some(Splits::WendigoGrid)
        } else if previous.0 == LEVEL_MACALANIA_TEMPLE && new.0 == LEVEL_MACALANIA_TEMPLE_ROAD {
            Option::Some(Splits::Shiva)
        } else if extended && previous.0 == LEVEL_CREVASSE && new.0 == LEVEL_MACALANIA_LAKE {
            Option::Some(Splits::Crevasse)
        } else if previous.0 == LEVEL_BIKANEL_NORTH && new.0 == LEVEL_HOME_ENTRANCE {
            Option::Some(Splits::Bikanel)
        } else if previous.0 == LEVEL_HOME_MAIN_CORRIDOR && new.0 == LEVEL_HOME_ENVIRONMENT_CONTROLS {
            Option::Some(Splits::Home)
        } else if previous.0 == LEVEL_BEVELLE_TRIALS && new.0 == LEVEL_BEVELLE_ANTECHAMBER {
            Option::Some(Splits::Bahamut)
        } else if previous.0 == LEVEL_CALM_LANDS && new.0 == LEVEL_CALM_LANDS_BRIDGE {
            Option::Some(Splits::CalmLands)
        } else if previous.0 == LEVEL_ZANARKAND_DOME && new.0 == LEVEL_TETRIS_ENTRANCE {
            Option::Some(Splits::Zanarkand)
        } else if previous.0 == LEVEL_NUCLEUS && new.0 == LEVEL_DREAMS_END {
            Option::Some(Splits::Eggs)
        } else {
            Option::None
        }
    }
}

/// The battle-state flag word.
#[derive(Clone, Copy, Debug, PartialEq, Eq, Structural)]
pub struct BattleState(pub u32);

impl BattleState {
    pub open spec fn spec_in_battle(self) -> bool {
        self.0 & BATTLE_ONGOING == BATTLE_ONGOING
    }

    pub open spec fn spec_escaped(self) -> bool {
        self.0 & BATTLE_ESCAPED == BATTLE_ESCAPED
    }

    pub open spec fn spec_is_over(self) -> bool {
        self.0 & BATTLE_IS_OVER == BATTLE_IS_OVER
    }

    pub open spec fn spec_fanfare(self) -> bool {
        self.0 & BATTLE_FANFARE == BATTLE_FANFARE
    }

    pub open spec fn spec_chained(self) -> bool {
        self.0 & BATTLE_CHAINED == BATTLE_CHAINED
    }

    pub fn in_battle(self) -> (r: bool)
        ensures
            r == self.spec_in_battle(),
    {
        self.0 & BATTLE_ONGOING == BATTLE_ONGOING
    }

    pub fn escaped(self) -> (r: bool)
        ensures
            r == self.spec_escaped(),
    {
        self.0 & BATTLE_ESCAPED == BATTLE_ESCAPED
    }

    pub fn is_over(self) -> (r: bool)
        ensures
            r == self.spec_is_over(),
    {
        self.0 & BATTLE_IS_OVER == BATTLE_IS_OVER
    }

    pub fn fanfare(self) -> (r: bool)
        ensures
            r == self.spec_fanfare(),
    {
        self.0 & BATTLE_FANFARE == BATTLE_FANFARE
    }

    pub fn chained(self) -> (r: bool)
        ensures
            r == self.spec_chained(),
    {
        self.0 & BATTLE_CHAINED == BATTLE_CHAINED
    }
}

/// The story-progress milestone counter: monotonically non-decreasing within
/// a run.
#[derive(Clone, Copy, Debug, PartialEq, Eq, Structural)]
pub struct Progress(pub u32);

/// An encounter's formation identifier: two byte-sized codes stored in one
/// little-endian 16-bit word.
#[derive(Clone, Copy, Debug, PartialEq, Eq, Structural)]
pub struct Formation(pub u16);

impl Formation {
    pub open spec fn spec_is(self, id1: u8, id2: u8) -> bool {
        self.0 == id1 as u16 + id2 as u16 * 256
    }

    /// True when the formation word holds exactly the codes `id1` (low byte)
    /// and `id2` (high byte).
    pub fn is(self, id1: u8, id2: u8) -> (r: bool)
        ensures
            r == self.spec_is(id1, id2),
    {
        self.0 == id1 as u16 + id2 as u16 * 256
    }
}

/// A boss HP value; defaults to the "unknown/alive" sentinel when the field
/// cannot be read, so an unreadable HP never counts as a kill.
#[derive(Clone, Copy, Debug, PartialEq, Eq, Structural)]
pub struct Hp(pub u32);

impl Default for Hp {
    fn default() -> (r: Self)
        ensures
            r.0 == HP_UNKNOWN,
    {
        Hp(HP_UNKNOWN)
    }
}

impl SnapshotValue for Loading {
    fn equals(&self, other: &Self) -> (r: bool) {
        self.0 == other.0
    }
}

impl SnapshotValue for Input {
    fn equals(&self, other: &Self) -> (r: bool) {
        self.0 == other.0
    }
}

impl SnapshotValue for Level {
    fn equals(&self, other: &Self) -> (r: bool) {
        self.0 == other.0
    }
}

impl SnapshotValue for BattleState {
    fn equals(&self, other: &Self) -> (r: bool) {
        self.0 == other.0
    }
}

impl SnapshotValue for Progress {
    fn equals(&self, other: &Self) -> (r: bool) {
        self.0 == other.0
    }
}

impl SnapshotValue for Formation {
    fn equals(&self, other: &Self) -> (r: bool) {
        self.0 == other.0
    }
}

impl SnapshotValue for Hp {
    fn equals(&self, other: &Self) -> (r: bool) {
        self.0 == other.0
    }
}

} // verus!
