//! The player's actions in the full plantation game: screens, rooms and
//! settings, the inspection answers, field and roastery work, civet care,
//! purchases, and the dispatch to letters and orders.
use vstd::prelude::*;
use crate::effect::{effect, fx, no_effect, Effect, StockMove};
use crate::estate::{
    fresh_estate, roster_ensured, Estate, EstateView, GameScreen, InventoryItem, RosterChange, ToolGroup,
    default_civet_names, all_items,
};
use crate::events::{fits_i32, resolve_event_fits, resolve_event_rule, EventOption};
use crate::journal::{lines, logged};
use crate::ledger::Sale;
use crate::localization::{in_language, language_text, room_label, room_title_definite, Language, PlantationRoom};
use crate::orders::{answer_offer_rule, deliver_fits, deliver_rule};
use crate::rng::DEFAULT_SEED;
use crate::estate::{REMINDER, WELCOME};
use crate::text::{decimal, decimal_text, number_line, with_number};

verus! {

#[derive(Clone, Copy, Debug, PartialEq, Eq, Structural)]
pub enum Action {
    PlantCoffee,
    HarvestFruit,
    FeedCivets,
    CollectBeans,
    RoastCoffee,
    SellCoffee,
    ImproveEnclosure,
    ShowPaperwork,
    BuildLegalOffice,
    HireCaretaker,
    BuildFruitSorter,
    BuildRoastingShed,
    BuildTastingRoom,
    DeliverOrder,
    Save,
    Load,
    FeedSelectedCivet,
    PetSelectedCivet,
    InspectSelectedCivet,
    CloseAnimalPanel,
    StartGame,
    StartNewRun,
    ShowIntro,
    ShowAnimalBook,
    BackToMenu,
    ContinueDay,
    EventOptionA,
    EventOptionB,
    EventOptionC,
    AcceptOrder,
    DeclineOrder,
    InspectPaperwork,
    InspectTasting,
    InspectGoat,
    GoSanctuary,
    GoCoffeeField,
    GoRoastery,
    GoPaperworkOffice,
    ShowCareTools,
    ShowFieldTools,
    ShowProductionTools,
    ShowComplianceTools,
    ShowUpgradeTools,
    ShowSystemTools,
    ToggleInventory,
    CycleTimeScale,
    ShowSettings,
    CloseSettings,
    ToggleLayoutGuides,
    SetLanguageEnglish,
    SetLanguageSwedish,
    GiveFruitFromInventory,
    PickUpBeansToInventory,
    UseTinyBrush,
    UseRibbonCollar,
    UseFruitPuzzle,
}

/// Work only the host can do.
#[derive(Clone, Copy, Debug, PartialEq, Eq, Structural)]
pub enum Command {
    Nothing,
    /// Reset the stocks, meters and civet records to a new game.
    ResetStocks,
    /// Put the keeper at the door of the room just entered.
    PlacePlayer,
    /// Write the save file.
    Save,
    /// Read the save file (or log that none was found).
    Load,
    /// Move to the next time speed and log it.
    CycleTimeScale,
}

/// A change to one civet's record, in hundredths of a point.
#[derive(Clone, Copy, Debug, PartialEq, Eq, Structural)]
pub struct CivetCare {
    pub civet: usize,
    pub hunger: i64,
    pub mood: i64,
}

/// The result of an action for the host: the effect on the stocks and
/// meters, a change to a civet's record, how the roster changed, work for the
/// host, whether the action clamps the meters itself, and whether the morale
/// check and a final clamp follow.
#[derive(Clone, Copy, Debug, PartialEq, Eq, Structural)]
pub struct Chore {
    pub effect: Effect,
    pub care: Option<CivetCare>,
    pub roster: RosterChange,
    pub command: Command,
    pub clamp: bool,
    pub routine: bool,
}

/// What the rules need to know of the continuous stocks and of the keeper.
#[derive(Clone, Copy, Debug, PartialEq, Eq, Structural)]
pub struct FieldReading {
    /// At least four bags of roasted coffee.
    pub tasting_stock: bool,
    /// Some coffee fruit on hand.
    pub fruit_on_hand: bool,
    /// At least two coffee fruit (a personal tray).
    pub fruit_for_tray: bool,
    /// At least one coffee fruit.
    pub fruit_in_sack: bool,
    /// At least one unit of processed beans.
    pub beans_for_batch: bool,
    /// `Some` exactly when at least one bag of roasted coffee is ready; the
    /// money earned includes the tasting-room bonus.
    pub sale: Option<Sale>,
    /// The roasted stock holds the bags of the accepted order.
    pub order_covered: bool,
    /// The keeper stands close to the civets.
    pub near_civets: bool,
    /// Civet happiness at least 60.
    pub content: bool,
}

pub const OPENS_EN: &'static str = "The plantation opens for business. Everyone looks adorable and audited.";
pub const OPENS_SV: &'static str = "Plantagen öppnar. Alla ser bedårande och granskade ut.";
pub const NEW_RUN_EN: &'static str = "New run started. The paperwork is blank and already judgemental.";
pub const NEW_RUN_SV: &'static str = "Ny omgång startad. Pappersarbetet är tomt och redan dömande.";
pub const NO_SAVE_EN: &'static str = "No save file found.";
pub const NO_SAVE_SV: &'static str = "Ingen sparfil hittades.";
pub const PANEL_CLOSED_EN: &'static str = "Animal care clipboard closed.";
pub const PANEL_CLOSED_SV: &'static str = "Djurskötselblocket stängdes.";
pub const SACK_OPEN_EN: &'static str = "Inventory sack opens into a bottom tray.";
pub const SACK_OPEN_SV: &'static str = "Inventariesäcken öppnas till en bottenbricka.";
pub const SACK_CLOSED_EN: &'static str = "Inventory tray folds back into a coffee sack.";
pub const SACK_CLOSED_SV: &'static str = "Inventariebrickan viks tillbaka till en kaffesäck.";
pub const SETTINGS_OPEN_EN: &'static str = "Settings notebook opened.";
pub const SETTINGS_OPEN_SV: &'static str = "Inställningsboken öppnades.";
pub const SETTINGS_CLOSED_EN: &'static str = "Settings notebook closed.";
pub const SETTINGS_CLOSED_SV: &'static str = "Inställningsboken stängdes.";
pub const GUIDES_ON_EN: &'static str = "Layout guides enabled.";
pub const GUIDES_ON_SV: &'static str = "Layoutguider aktiverade.";
pub const GUIDES_OFF_EN: &'static str = "Layout guides hidden.";
pub const GUIDES_OFF_SV: &'static str = "Layoutguider dolda.";
pub const ENGLISH_SET: &'static str = "Language set to English.";
pub const SWEDISH_SET: &'static str = "Språk satt till svenska.";
pub const REPORT_WAITING_EN: &'static str = "The day report is waiting for acknowledgement.";
pub const REPORT_WAITING_SV: &'static str = "Dagsrapporten väntar på kvittens.";
pub const PAPERWORK_READ_EN: &'static str = "Authorities read the paperwork and become visibly tired.";
pub const PAPERWORK_READ_SV: &'static str = "Myndigheterna läser pappren och blir synbart trötta.";
pub const TASTING_PASSED_EN: &'static str = "Coffee tasting successful. One inspector detects notes of panic.";
pub const TASTING_PASSED_SV: &'static str = "Kaffeprovningen lyckas. En inspektör anar toner av panik.";
pub const TASTING_SPOONS_EN: &'static str = "There was not enough roasted coffee. The tasting was mostly spoons.";
pub const TASTING_SPOONS_SV: &'static str = "Det fanns inte nog rostat kaffe. Provningen bestod mest av skedar.";
pub const GOAT_LEAVES_EN: &'static str = "The goat accepts no blame but leaves under legal advice.";
pub const GOAT_LEAVES_SV: &'static str = "Geten tar ingen skuld men lämnar platsen efter juridisk rådgivning.";
pub const WORK_PAUSED_EN: &'static str = "Normal work is paused during Operation Bitter Bean.";
pub const WORK_PAUSED_SV: &'static str = "Normalt arbete är pausat under Operation Bitter Bean.";
pub const PLANTED_EN: &'static str = "A coffee shrub is planted in a formation lawyers called unfortunate.";
pub const PLANTED_SV: &'static str = "En kaffebuske planteras i en formation juristerna kallade olycklig.";
pub const NO_PLANT_MONEY_EN: &'static str = "Not enough money for another coffee plant.";
pub const NO_PLANT_MONEY_SV: &'static str = "Inte nog pengar för ännu en kaffeplanta.";
pub const FED_EN: &'static str = "Civets receive fruit. Morale improves. Optics remain complex.";
pub const FED_SV: &'static str = "Palmmårdarna får frukt. Moralen stiger. Optiken förblir komplex.";
pub const NO_FRUIT_EN: &'static str = "No fruit to feed the civets. They file a silent complaint.";
pub const NO_FRUIT_SV: &'static str = "Ingen frukt att mata palmmårdarna med. De lämnar ett tyst klagomål.";
pub const ROASTED_EN: &'static str = "Roasted a premium batch. Smoke plume described as theatrical.";
pub const ROASTED_SV: &'static str = "Rostade en premiumsats. Rökplymen beskrivs som teatralisk.";
pub const NO_BEANS_EN: &'static str = "Not enough processed beans to roast.";
pub const NO_BEANS_SV: &'static str = "Inte nog processade bönor att rosta.";
pub const NO_ROASTED_EN: &'static str = "No roasted coffee ready to sell.";
pub const NO_ROASTED_SV: &'static str = "Inget rostat kaffe redo att säljas.";
pub const ENCLOSURE_EN: &'static str = "Enclosure improved. Inspectors dislike how wholesome it is.";
pub const ENCLOSURE_SV: &'static str = "Hägnet förbättrades. Inspektörerna ogillar hur hälsosamt det ser ut.";
pub const ENCLOSURE_NEEDS_EN: &'static str = "Enclosure upgrade needs $";
pub const ENCLOSURE_NEEDS_SV: &'static str = "Hägnuppgraderingen kräver $";
pub const PAPERWORK_EN: &'static str = "Presented receipts, permits, civet dental charts, and bean custody forms.";
pub const PAPERWORK_SV: &'static str = "Visade kvitton, tillstånd, tanddiagram för palmmårdar och bönkedjeformulär.";
pub const NO_PAPER_MONEY_EN: &'static str = "Not enough money to print the paperwork annex.";
pub const NO_PAPER_MONEY_SV: &'static str = "Inte nog pengar för att skriva ut pappersbilagan.";
pub const SELECT_FIRST_EN: &'static str = "Select a civet first.";
pub const SELECT_FIRST_SV: &'static str = "Välj en palmmård först.";
pub const NO_TRAY_EN: &'static str = "Not enough coffee fruit for a personal snack tray.";
pub const NO_TRAY_SV: &'static str = "Inte nog kaffefrukt för en personlig snackbricka.";
pub const TO_SANCTUARY_EN: &'static str = "Bring the coffee fruit to the Sanctuary first.";
pub const TO_SANCTUARY_SV: &'static str = "Ta kaffefrukten till fristaden först.";
pub const EMPTY_SACK_EN: &'static str = "No coffee fruit in the inventory sack.";
pub const EMPTY_SACK_SV: &'static str = "Ingen kaffefrukt i inventariesäcken.";
pub const WALK_CLOSER_EN: &'static str = "Walk closer to the civets before offering fruit.";
pub const WALK_CLOSER_SV: &'static str = "Gå närmare palmmårdarna innan du erbjuder frukt.";
pub const BEANS_NEAR_EN: &'static str = "Processed beans are collected near the civets.";
pub const BEANS_NEAR_SV: &'static str = "Processade bönor samlas nära palmmårdarna.";
pub const WORK_AREA_EN: &'static str = "Walk into the enclosure work area before picking up beans.";
pub const WORK_AREA_SV: &'static str = "Gå in i hägnets arbetsyta innan du plockar upp bönor.";
pub const NOT_IN_BASKET_EN: &'static str = "That item is not in the sanctuary basket.";
pub const NOT_IN_BASKET_SV: &'static str = "Det föremålet finns inte i fristadskorgen.";
pub const ALREADY_BUILT_EN: &'static str = "That upgrade is already in place.";
pub const ALREADY_BUILT_SV: &'static str = "Den uppgraderingen är redan på plats.";
pub const UPGRADE_NEEDS_EN: &'static str = "Upgrade needs $";
pub const UPGRADE_NEEDS_SV: &'static str = "Uppgraderingen kräver $";

pub open spec fn no_roster_change() -> RosterChange {
    RosterChange { reset: false, added: 0 }
}

/// A chore with the given effect, nothing else for the host but the
/// clamp flags.
pub open spec fn chore(e: Effect, clamp: bool, routine: bool) -> Chore {
    Chore { effect: e, care: None, roster: no_roster_change(), command: Command::Nothing, clamp, routine }
}

/// A chore that leaves the stocks alone.
pub open spec fn quiet() -> Chore {
    chore(no_effect(), false, false)
}

pub open spec fn command(c: Command) -> Chore {
    Chore { command: c, ..quiet() }
}

/// The estate with a line in the current language logged.
pub open spec fn say(v: EstateView, en: Seq<char>, sv: Seq<char>) -> EstateView {
    EstateView { log: logged(v.log, in_language(v.language, en, sv)), ..v }
}

fn quiet_chore() -> (c: Chore)
    ensures
        c == quiet(),
{
    Chore {
        effect: effect(0, 0, StockMove::Still),
        care: None,
        roster: RosterChange { reset: false, added: 0 },
        command: Command::Nothing,
        clamp: false,
        routine: false,
    }
}

/// A chore with the given effect and clamp flags (see `chore`).
pub fn new_chore(e: Effect, clamp: bool, routine: bool) -> (c: Chore)
    ensures
        c == chore(e, clamp, routine),
{
    Chore { effect: e, care: None, roster: RosterChange { reset: false, added: 0 }, command: Command::Nothing, clamp, routine }
}



/// Starting a game: a finished run (or any run, for a new run) is replaced
/// by a fresh estate in the same language; the game is then on screen.
#[verifier::opaque]
pub open spec fn start_rule(v: EstateView, new_run: bool) -> (EstateView, Chore) {
    let reset = new_run || v.game_result is Some;
    let w = if reset { fresh_estate(v.language) } else { v };
    let (en, sv) = if new_run { (NEW_RUN_EN@, NEW_RUN_SV@) } else { (OPENS_EN@, OPENS_SV@) };
    (
        say(EstateView { screen: GameScreen::Playing, ..w }, en, sv),
        if reset { command(Command::ResetStocks) } else { quiet() },
    )
}

/// The room a move action leads to.
pub open spec fn room_of(a: Action) -> PlantationRoom {
    match a {
        Action::GoSanctuary => PlantationRoom::Sanctuary,
        Action::GoRoastery => PlantationRoom::Roastery,
        Action::GoPaperworkOffice => PlantationRoom::PaperworkOffice,
        _ => PlantationRoom::CoffeeField,
    }
}

/// The tool group each room opens with.
pub open spec fn tools_for(room: PlantationRoom) -> ToolGroup {
    match room {
        PlantationRoom::Sanctuary => ToolGroup::Care,
        PlantationRoom::CoffeeField => ToolGroup::Field,
        PlantationRoom::Roastery => ToolGroup::Production,
        PlantationRoom::PaperworkOffice => ToolGroup::Compliance,
    }
}

/// The line logged on entering a room.
pub open spec fn moved_line(language: Language, room: PlantationRoom) -> Seq<char> {
    if language == Language::Swedish {
        "Flyttade till "@ + room_title_definite(room, language) + ". Allt är fortfarande lagligt."@
    } else {
        "Moved to "@ + room_title_definite(room, language) + ". Everything is still legal."@
    }
}

/// Entering a room: its tools open, a civet selection is kept only in the
/// sanctuary, and the keeper is placed at the door.
#[verifier::opaque]
pub open spec fn switch_room_rule(v: EstateView, room: PlantationRoom) -> (EstateView, Chore) {
    (
        EstateView {
            current_room: room,
            active_tool_group: tools_for(room),
            selected_civet: if room != PlantationRoom::Sanctuary { None } else { v.selected_civet },
            dirty_visuals: true,
            log: logged(v.log, moved_line(v.language, room)),
            ..v
        },
        command(Command::PlacePlayer),
    )
}

/// The tool group a tool-group button shows.
pub open spec fn group_of(a: Action) -> ToolGroup {
    match a {
        Action::ShowCareTools => ToolGroup::Care,
        Action::ShowProductionTools => ToolGroup::Production,
        Action::ShowComplianceTools => ToolGroup::Compliance,
        Action::ShowUpgradeTools => ToolGroup::Upgrades,
        Action::ShowSystemTools => ToolGroup::System,
        _ => ToolGroup::Field,
    }
}

/// The line that opens a new day.
pub open spec fn day_begins_line(language: Language, day: int) -> Seq<char> {
    if language == Language::Swedish {
        with_number("Dag "@, day, " börjar. Böckerna ser vakna ut."@)
    } else {
        with_number("Day "@, day, " begins. The ledgers look awake."@)
    }
}

/// Acknowledging the day report; a new day is announced unless the run is over.
pub open spec fn continue_day_rule(v: EstateView) -> (EstateView, Chore) {
    let w = EstateView { day_report: None, ..v };
    (
        if v.game_result is None { EstateView { log: logged(v.log, day_begins_line(v.language, v.day)), ..w } } else { w },
        quiet(),
    )
}

/// The settings, the sack, the layout guides and the language.
pub open spec fn settings_rule(v: EstateView, a: Action) -> (EstateView, Chore) {
    match a {
        Action::CloseAnimalPanel => (
            say(EstateView { selected_civet: None, dirty_visuals: true, ..v }, PANEL_CLOSED_EN@, PANEL_CLOSED_SV@),
            quiet(),
        ),
        Action::ToggleInventory => if v.inventory_open {
            (say(EstateView { inventory_open: false, ..v }, SACK_CLOSED_EN@, SACK_CLOSED_SV@), quiet())
        } else {
            (say(EstateView { inventory_open: true, ..v }, SACK_OPEN_EN@, SACK_OPEN_SV@), quiet())
        },
        Action::ShowSettings => (
            say(EstateView { settings_open: true, ..v }, SETTINGS_OPEN_EN@, SETTINGS_OPEN_SV@),
            quiet(),
        ),
        Action::CloseSettings => (
            say(EstateView { settings_open: false, ..v }, SETTINGS_CLOSED_EN@, SETTINGS_CLOSED_SV@),
            quiet(),
        ),
        Action::ToggleLayoutGuides => if v.show_layout_guides {
            (
                say(EstateView { show_layout_guides: false, dirty_visuals: true, ..v }, GUIDES_OFF_EN@, GUIDES_OFF_SV@),
                quiet(),
            )
        } else {
            (
                say(EstateView { show_layout_guides: true, dirty_visuals: true, ..v }, GUIDES_ON_EN@, GUIDES_ON_SV@),
                quiet(),
            )
        },
        Action::SetLanguageEnglish => (
            EstateView {
                language: Language::English,
                settings_open: false,
                log: logged(v.log, ENGLISH_SET@),
                ..v
            },
            quiet(),
        ),
        Action::SetLanguageSwedish => (
            EstateView {
                language: Language::Swedish,
                settings_open: false,
                log: logged(v.log, SWEDISH_SET@),
                ..v
            },
            quiet(),
        ),
        _ => (v, quiet()),
    }
}

/// A chore that only hands work to the host.
pub fn command_chore(c: Command) -> (ch: Chore)
    ensures
        ch == command(c),
{
    Chore { command: c, ..quiet_chore() }
}

/// The room a move action leads to.
pub fn room_of_action(a: Action) -> (room: PlantationRoom)
    ensures
        room == room_of(a),
{
    match a {
        Action::GoSanctuary => PlantationRoom::Sanctuary,
        Action::GoRoastery => PlantationRoom::Roastery,
        Action::GoPaperworkOffice => PlantationRoom::PaperworkOffice,
        _ => PlantationRoom::CoffeeField,
    }
}

/// The tool group a room opens with.
pub fn room_tools(room: PlantationRoom) -> (g: ToolGroup)
    ensures
        g == tools_for(room),
{
    match room {
        PlantationRoom::Sanctuary => ToolGroup::Care,
        PlantationRoom::CoffeeField => ToolGroup::Field,
        PlantationRoom::Roastery => ToolGroup::Production,
        PlantationRoom::PaperworkOffice => ToolGroup::Compliance,
    }
}

/// The tool group a tool-group button shows.
pub fn group_of_action(a: Action) -> (g: ToolGroup)
    ensures
        g == group_of(a),
{
    match a {
        Action::ShowCareTools => ToolGroup::Care,
        Action::ShowProductionTools => ToolGroup::Production,
        Action::ShowComplianceTools => ToolGroup::Compliance,
        Action::ShowUpgradeTools => ToolGroup::Upgrades,
        Action::ShowSystemTools => ToolGroup::System,
        _ => ToolGroup::Field,
    }
}

/// The line logged on entering a room.
pub fn moved_text(language: Language, room: PlantationRoom) -> (s: String)
    ensures
        s@ == moved_line(language, room),
{
    let label = room_label(room, language);
    if language == Language::Swedish {
        let mut s = "Flyttade till ".to_owned();
        s.append(label);
        s.append(". Allt är fortfarande lagligt.");
        s
    } else {
        let mut s = "Moved to ".to_owned();
        s.append(label);
        s.append(". Everything is still legal.");
        s
    }
}

/// The line that opens a new day.
pub fn day_begins_text(language: Language, day: u32) -> (s: String)
    ensures
        s@ == day_begins_line(language, day as int),
{
    if language == Language::Swedish {
        number_line("Dag ", day as i64, " börjar. Böckerna ser vakna ut.")
    } else {
        number_line("Day ", day as i64, " begins. The ledgers look awake.")
    }
}

impl Estate {
    /// The estate a new game starts with, in the given language.
    pub fn fresh(language: Language) -> (e: Estate)
        ensures
            e@ == fresh_estate(language),
    {
        let mut log: Vec<String> = Vec::new();
        log.push(WELCOME.to_owned());
        log.push(REMINDER.to_owned());
        let mut inventory: Vec<InventoryItem> = Vec::new();
        inventory.push(InventoryItem::TinyBrush);
        inventory.push(InventoryItem::RibbonCollar);
        inventory.push(InventoryItem::FruitPuzzle);
        let e = Estate {
            screen: GameScreen::MainMenu,
            language,
            day: 1,
            coffee_plants: 6,
            civets: 3,
            civet_names: default_civet_names(),
            selected_civet: None,
            money: 160,
            reputation: 8,
            enclosure_level: 1,
            paperwork_level: 1,
            legal_office: false,
            caretaker: false,
            fruit_sorter: false,
            roasting_shed: false,
            tasting_room: false,
            binturong_home: true,
            goat_present: true,
            inspection: false,
            event: None,
            pending_order: None,
            active_order: None,
            daily_sales: 0,
            daily_expenses: 0,
            day_report: None,
            game_result: None,
            rng_seed: DEFAULT_SEED,
            log,
            dirty_visuals: true,
            current_room: PlantationRoom::CoffeeField,
            active_tool_group: ToolGroup::Field,
            settings_open: false,
            inventory_open: false,
            show_layout_guides: false,
            inventory,
        };
        assert(lines(e.log@) =~= seq![WELCOME@, REMINDER@]) by {
            reveal(lines);
        }
        assert(e@.inventory =~= all_items());
        e
    }

    /// A new game in English.
    pub fn new() -> (e: Estate)
        ensures
            e@ == fresh_estate(Language::English),
    {
        Estate::fresh(Language::English)
    }

    /// Starts the game (or a new run); see `start_rule`.
    pub fn start(&mut self, new_run: bool) -> (c: Chore)
        ensures
            (final(self)@, c) == start_rule(old(self)@, new_run),
    {
        reveal(start_rule);
        let reset = new_run || self.game_result.is_some();
        if reset {
            *self = Estate::fresh(self.language);
        }
        self.screen = GameScreen::Playing;
        if new_run {
            self.say(NEW_RUN_EN, NEW_RUN_SV);
        } else {
            self.say(OPENS_EN, OPENS_SV);
        }
        if reset {
            command_chore(Command::ResetStocks)
        } else {
            quiet_chore()
        }
    }

    /// Enters a room; see `switch_room_rule`.
    pub fn switch_room(&mut self, room: PlantationRoom) -> (c: Chore)
        ensures
            (final(self)@, c) == switch_room_rule(old(self)@, room),
    {
        reveal(switch_room_rule);
        let keep = if room == PlantationRoom::Sanctuary { self.selected_civet } else { None };
        self.current_room = room;
        self.active_tool_group = room_tools(room);
        self.selected_civet = keep;
        self.dirty_visuals = true;
        let line = moved_text(self.language, room);
        self.log_line(line);
        command_chore(Command::PlacePlayer)
    }

    /// Acknowledges the day report; see `continue_day_rule`.
    pub fn continue_day(&mut self) -> (c: Chore)
        ensures
            (final(self)@, c) == continue_day_rule(old(self)@),
    {
        self.day_report = None;
        if self.game_result.is_none() {
            let line = day_begins_text(self.language, self.day);
            self.log_line(line);
        }
        quiet_chore()
    }

    /// The settings, the sack, the layout guides and the language; see
    /// `settings_rule`.
    pub fn settings(&mut self, a: Action) -> (c: Chore)
        ensures
            (final(self)@, c) == settings_rule(old(self)@, a),
    {
        match a {
            Action::CloseAnimalPanel => self.close_panel(),
            Action::ToggleInventory => self.toggle_sack(),
            Action::ShowSettings => self.open_settings(true),
            Action::CloseSettings => self.open_settings(false),
            Action::ToggleLayoutGuides => self.toggle_guides(),
            Action::SetLanguageEnglish => self.set_language(Language::English),
            Action::SetLanguageSwedish => self.set_language(Language::Swedish),
            _ => {},
        }
        quiet_chore()
    }

    fn close_panel(&mut self)
        ensures
            final(self)@ == say(
                EstateView { selected_civet: None, dirty_visuals: true, ..old(self)@ },
                PANEL_CLOSED_EN@,
                PANEL_CLOSED_SV@,
            ),
    {
        self.selected_civet = None;
        self.dirty_visuals = true;
        self.say(PANEL_CLOSED_EN, PANEL_CLOSED_SV);
    }

    fn toggle_sack(&mut self)
        ensures
            final(self)@ == (if old(self).inventory_open {
                say(EstateView { inventory_open: false, ..old(self)@ }, SACK_CLOSED_EN@, SACK_CLOSED_SV@)
            } else {
                say(EstateView { inventory_open: true, ..old(self)@ }, SACK_OPEN_EN@, SACK_OPEN_SV@)
            }),
    {
        let open = !self.inventory_open;
        self.inventory_open = open;
        let en = if open { SACK_OPEN_EN } else { SACK_CLOSED_EN };
        let sv = if open { SACK_OPEN_SV } else { SACK_CLOSED_SV };
        self.say(en, sv);
    }

    fn open_settings(&mut self, open: bool)
        ensures
            final(self)@ == (if open {
                say(EstateView { settings_open: true, ..old(self)@ }, SETTINGS_OPEN_EN@, SETTINGS_OPEN_SV@)
            } else {
                say(EstateView { settings_open: false, ..old(self)@ }, SETTINGS_CLOSED_EN@, SETTINGS_CLOSED_SV@)
            }),
    {
        self.settings_open = open;
        let en = if open { SETTINGS_OPEN_EN } else { SETTINGS_CLOSED_EN };
        let sv = if open { SETTINGS_OPEN_SV } else { SETTINGS_CLOSED_SV };
        self.say(en, sv);
    }

    fn toggle_guides(&mut self)
        ensures
            final(self)@ == (if old(self).show_layout_guides {
                say(
                    EstateView { show_layout_guides: false, dirty_visuals: true, ..old(self)@ },
                    GUIDES_OFF_EN@,
                    GUIDES_OFF_SV@,
                )
            } else {
                say(
                    EstateView { show_layout_guides: true, dirty_visuals: true, ..old(self)@ },
                    GUIDES_ON_EN@,
                    GUIDES_ON_SV@,
                )
            }),
    {
        let on = !self.show_layout_guides;
        self.show_layout_guides = on;
        self.dirty_visuals = true;
        let en = if on { GUIDES_ON_EN } else { GUIDES_OFF_EN };
        let sv = if on { GUIDES_ON_SV } else { GUIDES_OFF_SV };
        self.say(en, sv);
    }

    fn set_language(&mut self, language: Language)
        ensures
            final(self)@ == (EstateView {
                language,
                settings_open: false,
                log: logged(
                    old(self)@.log,
                    if language == Language::Swedish { SWEDISH_SET@ } else { ENGLISH_SET@ },
                ),
                ..old(self)@
            }),
    {
        self.language = language;
        self.settings_open = false;
        let line = if language == Language::Swedish { SWEDISH_SET } else { ENGLISH_SET };
        self.log_text(line);
    }
}

} // verus!
