//! The boolean enablement table that configuration hands to the engine.

use vstd::prelude::*;

use crate::splits::Splits;

verus! {

/// The engine's configuration: a handful of global toggles and one boolean
/// per split identifier.  A split whose toggle is off is dropped silently
/// after disambiguation.
#[derive(Clone, Copy, Debug, PartialEq, Eq, Structural)]
pub struct Settings {
    /// Start the timer when a new run starts.
    pub start: bool,
    /// Enable autosplitting.
    pub split: bool,
    /// Reset the timer on music selection.
    pub reset: bool,
    /// Remove load times from accumulated game time.
    pub remove_loads: bool,
    /// Publish the encounter counter to the telemetry sink.
    pub count_encounters: bool,
    /// Extended profile: enable the practice/testing milestones and options.
    pub extended: bool,
    /// Extended: start the timer when loading a save.
    pub start_on_load: bool,
    /// Extended: reset the timer when loading a save from the load menu.
    pub reset_on_load: bool,
    // One toggle per split identifier.
    pub ammes: bool,
    pub klikk: bool,
    pub tros: bool,
    pub lagoon: bool,
    pub valefor: bool,
    pub kimahri: bool,
    pub besaid: bool,
    pub echuilles: bool,
    pub geneaux: bool,
    pub ifrit: bool,
    pub kilika: bool,
    pub oblitzerator: bool,
    pub blitzball: bool,
    pub garuda: bool,
    pub miihen_road: bool,
    pub chocobo_eater: bool,
    pub old_road: bool,
    pub mrr: bool,
    pub gui: bool,
    pub mrr_skip: bool,
    pub djose_road: bool,
    pub ixion: bool,
    pub moonflow: bool,
    pub extractor: bool,
    pub guadosalam: bool,
    pub thunder_plains: bool,
    pub macalania_woods: bool,
    pub spherimorph: bool,
    pub crawler: bool,
    pub seymour: bool,
    pub shiva: bool,
    pub wendigo: bool,
    pub bikanel: bool,
    pub home: bool,
    pub evrae: bool,
    pub guards: bool,
    pub bahamut: bool,
    pub isaaru: bool,
    pub natus: bool,
    pub calm_lands: bool,
    pub biran_yenke: bool,
    pub flux: bool,
    pub sanctuary_keeper: bool,
    pub zanarkand: bool,
    pub yunalesca: bool,
    pub core: bool,
    pub overdrive: bool,
    pub omnis: bool,
    pub eggs: bool,
    pub bfa: bool,
    pub yu_yevon: bool,
    pub oaka_shop: bool,
    pub crawler_grid: bool,
    pub seymour_grid: bool,
    pub wendigo_grid: bool,
    pub crevasse: bool,
    pub bikanel_party: bool,
    pub bikanel_yeet: bool,
    pub bombs: bool,
    pub dual_horns: bool,
    pub chimeras: bool,
    pub guards1: bool,
    pub guards2: bool,
    pub guards3: bool,
    pub guards4: bool,
}

impl Settings {
    /// The configuration as it stands before the user changes anything.
    pub open spec fn spec_default() -> Settings {
        Settings {
            start: true,
            split: true,
            reset: false,
            remove_loads: true,
            count_encounters: true,
            extended: false,
            start_on_load: false,
            reset_on_load: false,
            ammes: true,
            klikk: true,
            tros: true,
            lagoon: true,
            valefor: false,
            kimahri: true,
            besaid: false,
            echuilles: true,
            geneaux: true,
            ifrit: false,
            kilika: true,
            oblitzerator: true,
            blitzball: true,
            garuda: true,
            miihen_road: true,
            chocobo_eater: false,
            old_road: true,
            mrr: false,
            gui: false,
            mrr_skip: true,
            djose_road: true,
            ixion: false,
            moonflow: true,
            extractor: true,
            guadosalam: true,
            thunder_plains: true,
            macalania_woods: false,
            spherimorph: true,
            crawler: true,
            seymour: true,
            shiva: false,
            wendigo: true,
            bikanel: false,
            home: true,
            evrae: true,
            guards: true,
            bahamut: true,
            isaaru: true,
            natus: true,
            calm_lands: false,
            biran_yenke: true,
            flux: true,
            sanctuary_keeper: true,
            zanarkand: false,
            yunalesca: true,
            core: true,
            overdrive: true,
            omnis: true,
            eggs: false,
            bfa: true,
            yu_yevon: true,
            oaka_shop: false,
            crawler_grid: false,
            seymour_grid: false,
            wendigo_grid: false,
            crevasse: false,
            bikanel_party: false,
            bikanel_yeet: false,
            bombs: false,
            dual_horns: false,
            chimeras: false,
            guards1: false,
            guards2: false,
            guards3: false,
            guards4: false,
        }
    }

    /// Whether splitting on `split_on` is enabled.
    #[verifier::opaque]
    pub open spec fn spec_filter(self, split_on: Splits) -> bool {
        match split_on {
            Splits::Ammes => self.ammes,
            Splits::Klikk => self.klikk,
            Splits::Tros => self.tros,
            Splits::Lagoon => self.lagoon,
            Splits::Valefor => self.valefor,
            Splits::Kimahri => self.kimahri,
            Splits::Besaid => self.besaid,
            Splits::Echuilles => self.echuilles,
            Splits::Geneaux => self.geneaux,
            Splits::Ifrit => self.ifrit,
            Splits::Kilika => self.kilika,
            Splits::Oblitzerator => self.oblitzerator,
            Splits::Blitzball => self.blitzball,
            Splits::Garuda => self.garuda,
            Splits::MiihenRoad => self.miihen_road,
            Splits::ChocoboEater => self.chocobo_eater,
            Splits::OldRoad => self.old_road,
            Splits::Mrr => self.mrr,
            Splits::Gui => self.gui,
            Splits::MrrSkip => self.mrr_skip,
            Splits::DjoseRoad => self.djose_road,
            Splits::Ixion => self.ixion,
            Splits::Moonflow => self.moonflow,
            Splits::Extractor => self.extractor,
            Splits::Guadosalam => self.guadosalam,
            Splits::ThunderPlains => self.thunder_plains,
            Splits::MacalaniaWoods => self.macalania_woods,
            Splits::Spherimorph => self.spherimorph,
            Splits::Crawler => self.crawler,
            Splits::Seymour => self.seymour,
            Splits::Shiva => self.shiva,
            Splits::Wendigo => self.wendigo,
            Splits::Bikanel => self.bikanel,
            Splits::Home => self.home,
            Splits::Evrae => self.evrae,
            Splits::Guards => self.guards,
            Splits::Bahamut => self.bahamut,
            Splits::Isaaru => self.isaaru,
            Splits::Natus => self.natus,
            Splits::CalmLands => self.calm_lands,
            Splits::BiranYenke => self.biran_yenke,
            Splits::Flux => self.flux,
            Splits::SanctuaryKeeper => self.sanctuary_keeper,
            Splits::Zanarkand => self.zanarkand,
            Splits::Yunalesca => self.yunalesca,
            Splits::Core => self.core,
            Splits::Overdrive => self.overdrive,
            Splits::Omnis => self.omnis,
            Splits::Eggs => self.eggs,
            Splits::Bfa => self.bfa,
            Splits::YuYevon => self.yu_yevon,
            Splits::OakaShop => self.oaka_shop,
            Splits::CrawlerGrid => self.crawler_grid,
            Splits::SeymourGrid => self.seymour_grid,
            Splits::WendigoGrid => self.wendigo_grid,
            Splits::Crevasse => self.crevasse,
            Splits::BikanelParty => self.bikanel_party,
            Splits::BikanelYeet => self.bikanel_yeet,
            Splits::Bombs => self.bombs,
            Splits::DualHorns => self.dual_horns,
            Splits::Chimeras => self.chimeras,
            Splits::Guards1 => self.guards1,
            Splits::Guards2 => self.guards2,
            Splits::Guards3 => self.guards3,
            Splits::Guards4 => self.guards4,
        }
    }

    pub fn filter(&self, split_on: Splits) -> (r: bool)
        ensures
            r == self.spec_filter(split_on),
    {
        proof {
            reveal(Settings::spec_filter);
        }
        match split_on {
            Splits::Ammes => self.ammes,
            Splits::Klikk => self.klikk,
            Splits::Tros => self.tros,
            Splits::Lagoon => self.lagoon,
            Splits::Valefor => self.valefor,
            Splits::Kimahri => self.kimahri,
            Splits::Besaid => self.besaid,
            Splits::Echuilles => self.echuilles,
            Splits::Geneaux => self.geneaux,
            Splits::Ifrit => self.ifrit,
            Splits::Kilika => self.kilika,
            Splits::Oblitzerator => self.oblitzerator,
            Splits::Blitzball => self.blitzball,
            Splits::Garuda => self.garuda,
            Splits::MiihenRoad => self.miihen_road,
            Splits::ChocoboEater => self.chocobo_eater,
            Splits::OldRoad => self.old_road,
            Splits::Mrr => self.mrr,
            Splits::Gui => self.gui,
            Splits::MrrSkip => self.mrr_skip,
            Splits::DjoseRoad => self.djose_road,
            Splits::Ixion => self.ixion,
            Splits::Moonflow => self.moonflow,
            Splits::Extractor => self.extractor,
            Splits::Guadosalam => self.guadosalam,
            Splits::ThunderPlains => self.thunder_plains,
            Splits::MacalaniaWoods => self.macalania_woods,
            Splits::Spherimorph => self.spherimorph,
            Splits::Crawler => self.crawler,
            Splits::Seymour => self.seymour,
            Splits::Shiva => self.shiva,
            Splits::Wendigo => self.wendigo,
            Splits::Bikanel => self.bikanel,
            Splits::Home => self.home,
            Splits::Evrae => self.evrae,
            Splits::Guards => self.guards,
            Splits::Bahamut => self.bahamut,
            Splits::Isaaru => self.isaaru,
            Splits::Natus => self.natus,
            Splits::CalmLands => self.calm_lands,
            Splits::BiranYenke => self.biran_yenke,
            Splits::Flux => self.flux,
            Splits::SanctuaryKeeper => self.sanctuary_keeper,
            Splits::Zanarkand => self.zanarkand,
            Splits::Yunalesca => self.yunalesca,
            Splits::Core => self.core,
            Splits::Overdrive => self.overdrive,
            Splits::Omnis => self.omnis,
            Splits::Eggs => self.eggs,
            Splits::Bfa => self.bfa,
            Splits::YuYevon => self.yu_yevon,
            Splits::OakaShop => self.oaka_shop,
            Splits::CrawlerGrid => self.crawler_grid,
            Splits::SeymourGrid => self.seymour_grid,
            Splits::WendigoGrid => self.wendigo_grid,
            Splits::Crevasse => self.crevasse,
            Splits::BikanelParty => self.bikanel_party,
            Splits::BikanelYeet => self.bikanel_yeet,
            Splits::Bombs => self.bombs,
            Splits::DualHorns => self.dual_horns,
            Splits::Chimeras => self.chimeras,
            Splits::Guards1 => self.guards1,
            Splits::Guards2 => self.guards2,
            Splits::Guards3 => self.guards3,
            Splits::Guards4 => self.guards4,
        }
    }
}

impl Default for Settings {
    fn default() -> (r: Settings)
        ensures
            r == Settings::spec_default(),
    {
        Settings {
            start: true,
            split: true,
            reset: false,
            remove_loads: true,
            count_encounters: true,
            extended: false,
            start_on_load: false,
            reset_on_load: false,
            ammes: true,
            klikk: true,
            tros: true,
            lagoon: true,
            valefor: false,
            kimahri: true,
            besaid: false,
            echuilles: true,
            geneaux: true,
            ifrit: false,
            kilika: true,
            oblitzerator: true,
            blitzball: true,
            garuda: true,
            miihen_road: true,
            chocobo_eater: false,
            old_road: true,
            mrr: false,
            gui: false,
            mrr_skip: true,
            djose_road: true,
            ixion: false,
            moonflow: true,
            extractor: true,
            guadosalam: true,
            thunder_plains: true,
            macalania_woods: false,
            spherimorph: true,
            crawler: true,
            seymour: true,
            shiva: false,
            wendigo: true,
            bikanel: false,
            home: true,
            evrae: true,
            guards: true,
            bahamut: true,
            isaaru: true,
            natus: true,
            calm_lands: false,
            biran_yenke: true,
            flux: true,
            sanctuary_keeper: true,
            zanarkand: false,
            yunalesca: true,
            core: true,
            overdrive: true,
            omnis: true,
            eggs: false,
            bfa: true,
            yu_yevon: true,
            oaka_shop: false,
            crawler_grid: false,
            seymour_grid: false,
            wendigo_grid: false,
            crevasse: false,
            bikanel_party: false,
            bikanel_yeet: false,
            bombs: false,
            dual_horns: false,
            chimeras: false,
            guards1: false,
            guards2: false,
            guards3: false,
            guards4: false,
        }
    }
}

} // verus!
