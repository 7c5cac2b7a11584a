//! The closed enumeration of named run milestones.

use vstd::prelude::*;

use crate::enum_set::{EnumSet, EnumSetMember};

verus! {

/// A named milestone of a run; each value may trigger at most one timer
/// split per run.  The values from `OakaShop` on belong to the extended
/// profile and only fire when the engine runs in extended mode.
#[derive(Clone, Copy, Debug, PartialEq, Eq, Structural)]
pub enum Splits {
    Ammes,
    Klikk,
    Tros,
    Lagoon,
    Valefor,
    Kimahri,
    Besaid,
    Echuilles,
    Geneaux,
    Ifrit,
    Kilika,
    Oblitzerator,
    Blitzball,
    Garuda,
    MiihenRoad,
    ChocoboEater,
    OldRoad,
    Mrr,
    Gui,
    MrrSkip,
    DjoseRoad,
    Ixion,
    Moonflow,
    Extractor,
    Guadosalam,
    ThunderPlains,
    MacalaniaWoods,
    Spherimorph,
    Crawler,
    Seymour,
    Shiva,
    Wendigo,
    Bikanel,
    Home,
    Evrae,
    Guards,
    Bahamut,
    Isaaru,
    Natus,
    CalmLands,
    BiranYenke,
    Flux,
    SanctuaryKeeper,
    Zanarkand,
    Yunalesca,
    Core,
    Overdrive,
    Omnis,
    Eggs,
    Bfa,
    YuYevon,
    OakaShop,
    CrawlerGrid,
    SeymourGrid,
    WendigoGrid,
    Crevasse,
    BikanelParty,
    BikanelYeet,
    Bombs,
    DualHorns,
    Chimeras,
    Guards1,
    Guards2,
    Guards3,
    Guards4,
}

impl Splits {
    /// The bit that stands for this milestone in the seen-splits set.
    #[verifier::opaque]
    pub open spec fn spec_position(self) -> u8 {
        match self {
            Splits::Ammes => 0,
            Splits::Klikk => 1,
            Splits::Tros => 2,
            Splits::Lagoon => 3,
            Splits::Valefor => 4,
            Splits::Kimahri => 5,
            Splits::Besaid => 6,
            Splits::Echuilles => 7,
            Splits::Geneaux => 8,
            Splits::Ifrit => 9,
            Splits::Kilika => 10,
            Splits::Oblitzerator => 11,
            Splits::Blitzball => 12,
            Splits::Garuda => 13,
            Splits::MiihenRoad => 14,
            Splits::ChocoboEater => 15,
            Splits::OldRoad => 16,
            Splits::Mrr => 17,
            Splits::Gui => 18,
            Splits::MrrSkip => 19,
            Splits::DjoseRoad => 20,
            Splits::Ixion => 21,
            Splits::Moonflow => 22,
            Splits::Extractor => 23,
            Splits::Guadosalam => 24,
            Splits::ThunderPlains => 25,
            Splits::MacalaniaWoods => 26,
            Splits::Spherimorph => 27,
            Splits::Crawler => 28,
            Splits::Seymour => 29,
            Splits::Shiva => 30,
            Splits::Wendigo => 31,
            Splits::Bikanel => 32,
            Splits::Home => 33,
            Splits::Evrae => 34,
            Splits::Guards => 35,
            Splits::Bahamut => 36,
            Splits::Isaaru => 37,
            Splits::Natus => 38,
            Splits::CalmLands => 39,
            Splits::BiranYenke => 40,
            Splits::Flux => 41,
            Splits::SanctuaryKeeper => 42,
            Splits::Zanarkand => 43,
            Splits::Yunalesca => 44,
            Splits::Core => 45,
            Splits::Overdrive => 46,
            Splits::Omnis => 47,
            Splits::Eggs => 48,
            Splits::Bfa => 49,
            Splits::YuYevon => 50,
            Splits::OakaShop => 51,
            Splits::CrawlerGrid => 52,
            Splits::SeymourGrid => 53,
            Splits::WendigoGrid => 54,
            Splits::Crevasse => 55,
            Splits::BikanelParty => 56,
            Splits::BikanelYeet => 57,
            Splits::Bombs => 58,
            Splits::DualHorns => 59,
            Splits::Chimeras => 60,
            Splits::Guards1 => 61,
            Splits::Guards2 => 62,
            Splits::Guards3 => 63,
            Splits::Guards4 => 64,
        }
    }

    pub fn position(self) -> (r: u8)
        ensures
            r == self.spec_position(),
    {
        proof {
            reveal(Splits::spec_position);
        }
        match self {
            Splits::Ammes => 0,
            Splits::Klikk => 1,
            Splits::Tros => 2,
            Splits::Lagoon => 3,
            Splits::Valefor => 4,
            Splits::Kimahri => 5,
            Splits::Besaid => 6,
            Splits::Echuilles => 7,
            Splits::Geneaux => 8,
            Splits::Ifrit => 9,
            Splits::Kilika => 10,
            Splits::Oblitzerator => 11,
            Splits::Blitzball => 12,
            Splits::Garuda => 13,
            Splits::MiihenRoad => 14,
            Splits::ChocoboEater => 15,
            Splits::OldRoad => 16,
            Splits::Mrr => 17,
            Splits::Gui => 18,
            Splits::MrrSkip => 19,
            Splits::DjoseRoad => 20,
            Splits::Ixion => 21,
            Splits::Moonflow => 22,
            Splits::Extractor => 23,
            Splits::Guadosalam => 24,
            Splits::ThunderPlains => 25,
            Splits::MacalaniaWoods => 26,
            Splits::Spherimorph => 27,
            Splits::Crawler => 28,
            Splits::Seymour => 29,
            Splits::Shiva => 30,
            Splits::Wendigo => 31,
            Splits::Bikanel => 32,
            Splits::Home => 33,
            Splits::Evrae => 34,
            Splits::Guards => 35,
            Splits::Bahamut => 36,
            Splits::Isaaru => 37,
            Splits::Natus => 38,
            Splits::CalmLands => 39,
            Splits::BiranYenke => 40,
            Splits::Flux => 41,
            Splits::SanctuaryKeeper => 42,
            Splits::Zanarkand => 43,
            Splits::Yunalesca => 44,
            Splits::Core => 45,
            Splits::Overdrive => 46,
            Splits::Omnis => 47,
            Splits::Eggs => 48,
            Splits::Bfa => 49,
            Splits::YuYevon => 50,
            Splits::OakaShop => 51,
            Splits::CrawlerGrid => 52,
            Splits::SeymourGrid => 53,
            Splits::WendigoGrid => 54,
            Splits::Crevasse => 55,
            Splits::BikanelParty => 56,
            Splits::BikanelYeet => 57,
            Splits::Bombs => 58,
            Splits::DualHorns => 59,
            Splits::Chimeras => 60,
            Splits::Guards1 => 61,
            Splits::Guards2 => 62,
            Splits::Guards3 => 63,
            Splits::Guards4 => 64,
        }
    }
}

impl EnumSetMember for Splits {
    open spec fn spec_ordinal(&self) -> Option<u8> {
        Option::Some(self.spec_position())
    }

    fn ordinal(&self) -> (r: Option<u8>) {
        Some(self.position())
    }
}

/// Every milestone has a bit inside the 128-bit seen-splits word.
pub proof fn lemma_position_in_range(split: Splits)
    ensures
        split.spec_position() < 128,
{
    reveal(Splits::spec_position);
}

/// The set of milestones seen so far in the current run.
pub type SeenSplits = EnumSet<Splits>;

} // verus!
