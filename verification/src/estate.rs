//! The discrete state of the full plantation game: days, upgrades, letters,
//! orders, rooms and the civet roster.
use vstd::prelude::*;
use crate::journal::{lines, log_line, log_text, logged};
use crate::localization::{in_language, language_text, world_label_in, world_text, Language, PlantationRoom};
use crate::rng::{index_of, next_seed, rand_index, DEFAULT_SEED};
use crate::text::{decimal, number_line};

verus! {

pub const WELCOME: &'static str = "Welcome to EutherCivet: fair-trade coffee, suspicious silhouettes.";
pub const REMINDER: &'static str = "Reminder: no narcotics. Only fruit, civets, beans, and bureaucracy.";
pub const INSPECTION_BEGINS: &'static str = "Operation Bitter Bean begins.";

/// The last day of a run.
pub const FINAL_DAY: u32 = 7;

#[derive(Clone, Copy, Debug, PartialEq, Eq, Structural)]
pub enum GameScreen {
    MainMenu,
    Intro,
    AnimalBook,
    Playing,
}

#[derive(Clone, Copy, Debug, PartialEq, Eq, Structural)]
pub enum ToolGroup {
    Care,
    Field,
    Production,
    Compliance,
    Upgrades,
    System,
}

#[derive(Clone, Copy, Debug, PartialEq, Eq, Structural)]
pub enum InventoryItem {
    TinyBrush,
    RibbonCollar,
    FruitPuzzle,
}

#[derive(Clone, Copy, Debug, PartialEq, Eq, Structural)]
pub enum RandomEventKind {
    PoliceVisit,
    JournalistQuestions,
    WelfareInspection,
    HelicopterOverhead,
    BinturongEscape,
    PickyCivet,
    GoatAppearance,
}

/// A letter about an incident that waits for a decision.
pub struct EventState {
    pub kind: RandomEventKind,
    pub title: String,
    pub body: String,
    pub due_day: u32,
}

pub struct EventView {
    pub kind: RandomEventKind,
    pub title: Seq<char>,
    pub body: Seq<char>,
    pub due_day: u32,
}

impl View for EventState {
    type V = EventView;

    open spec fn view(&self) -> EventView {
        EventView { kind: self.kind, title: self.title@, body: self.body@, due_day: self.due_day }
    }
}

/// A premium order: whole bags of roasted coffee for a payout.
pub struct OrderOffer {
    pub client: String,
    pub bags: u32,
    pub payout: i32,
    pub reputation_reward: i32,
    pub due_day: u32,
}

pub struct OrderView {
    pub client: Seq<char>,
    pub bags: u32,
    pub payout: i32,
    pub reputation_reward: i32,
    pub due_day: u32,
}

impl View for OrderOffer {
    type V = OrderView;

    open spec fn view(&self) -> OrderView {
        OrderView {
            client: self.client@,
            bags: self.bags,
            payout: self.payout,
            reputation_reward: self.reputation_reward,
            due_day: self.due_day,
        }
    }
}

/// The report at the end of a day; the suspicion change is in hundredths.
pub struct DayReport {
    pub day: u32,
    pub title: String,
    pub summary: String,
    pub upkeep: i32,
    pub reputation_delta: i32,
    pub suspicion_delta: i64,
}

pub struct ReportView {
    pub day: u32,
    pub title: Seq<char>,
    pub summary: Seq<char>,
    pub upkeep: i32,
    pub reputation_delta: i32,
    pub suspicion_delta: i64,
}

impl View for DayReport {
    type V = ReportView;

    open spec fn view(&self) -> ReportView {
        ReportView {
            day: self.day,
            title: self.title@,
            summary: self.summary@,
            upkeep: self.upkeep,
            reputation_delta: self.reputation_delta,
            suspicion_delta: self.suspicion_delta,
        }
    }
}

pub enum GameResult {
    Won(String),
    Failed(String),
}

pub enum ResultView {
    Won(Seq<char>),
    Failed(Seq<char>),
}

impl View for GameResult {
    type V = ResultView;

    open spec fn view(&self) -> ResultView {
        match self {
            GameResult::Won(s) => ResultView::Won(s@),
            GameResult::Failed(s) => ResultView::Failed(s@),
        }
    }
}

pub open spec fn opt_view<T: View>(o: Option<T>) -> Option<T::V> {
    match o {
        Some(t) => Some(t@),
        None => None,
    }
}

/// The discrete side of the full plantation game.
pub struct Estate {
    pub screen: GameScreen,
    pub language: Language,
    pub day: u32,
    pub coffee_plants: u32,
    pub civets: u32,
    pub civet_names: Vec<String>,
    pub selected_civet: Option<usize>,
    pub money: i32,
    pub reputation: i32,
    pub enclosure_level: u32,
    pub paperwork_level: u32,
    pub legal_office: bool,
    pub caretaker: bool,
    pub fruit_sorter: bool,
    pub roasting_shed: bool,
    pub tasting_room: bool,
    pub binturong_home: bool,
    pub goat_present: bool,
    pub inspection: bool,
    pub event: Option<EventState>,
    pub pending_order: Option<OrderOffer>,
    pub active_order: Option<OrderOffer>,
    pub daily_sales: i32,
    pub daily_expenses: i32,
    pub day_report: Option<DayReport>,
    pub game_result: Option<GameResult>,
    pub rng_seed: u64,
    pub log: Vec<String>,
    pub dirty_visuals: bool,
    pub current_room: PlantationRoom,
    pub active_tool_group: ToolGroup,
    pub settings_open: bool,
    pub inventory_open: bool,
    pub show_layout_guides: bool,
    pub inventory: Vec<InventoryItem>,
}

pub struct EstateView {
    pub screen: GameScreen,
    pub language: Language,
    pub day: int,
    pub coffee_plants: int,
    pub civets: int,
    pub civet_names: Seq<Seq<char>>,
    pub selected_civet: Option<usize>,
    pub money: int,
    pub reputation: int,
    pub enclosure_level: int,
    pub paperwork_level: int,
    pub legal_office: bool,
    pub caretaker: bool,
    pub fruit_sorter: bool,
    pub roasting_shed: bool,
    pub tasting_room: bool,
    pub binturong_home: bool,
    pub goat_present: bool,
    pub inspection: bool,
    pub event: Option<EventView>,
    pub pending_order: Option<OrderView>,
    pub active_order: Option<OrderView>,
    pub daily_sales: int,
    pub daily_expenses: int,
    pub day_report: Option<ReportView>,
    pub game_result: Option<ResultView>,
    pub rng_seed: u64,
    pub log: Seq<Seq<char>>,
    pub dirty_visuals: bool,
    pub current_room: PlantationRoom,
    pub active_tool_group: ToolGroup,
    pub settings_open: bool,
    pub inventory_open: bool,
    pub show_layout_guides: bool,
    pub inventory: Seq<InventoryItem>,
}

impl View for Estate {
    type V = EstateView;

    open spec fn view(&self) -> EstateView {
        EstateView {
            screen: self.screen,
            language: self.language,
            day: self.day as int,
            coffee_plants: self.coffee_plants as int,
            civets: self.civets as int,
            civet_names: lines(self.civet_names@),
            selected_civet: self.selected_civet,
            money: self.money as int,
            reputation: self.reputation as int,
            enclosure_level: self.enclosure_level as int,
            paperwork_level: self.paperwork_level as int,
            legal_office: self.legal_office,
            caretaker: self.caretaker,
            fruit_sorter: self.fruit_sorter,
            roasting_shed: self.roasting_shed,
            tasting_room: self.tasting_room,
            binturong_home: self.binturong_home,
            goat_present: self.goat_present,
            inspection: self.inspection,
            event: opt_view(self.event),
            pending_order: opt_view(self.pending_order),
            active_order: opt_view(self.active_order),
            daily_sales: self.daily_sales as int,
            daily_expenses: self.daily_expenses as int,
            day_report: opt_view(self.day_report),
            game_result: opt_view(self.game_result),
            rng_seed: self.rng_seed,
            log: lines(self.log@),
            dirty_visuals: self.dirty_visuals,
            current_room: self.current_room,
            active_tool_group: self.active_tool_group,
            settings_open: self.settings_open,
            inventory_open: self.inventory_open,
            show_layout_guides: self.show_layout_guides,
            inventory: self.inventory@,
        }
    }
}

pub open spec fn starting_names() -> Seq<Seq<char>> {
    seq!["Miso"@, "Kanel"@, "Beanie"@]
}

pub open spec fn all_items() -> Seq<InventoryItem> {
    seq![InventoryItem::TinyBrush, InventoryItem::RibbonCollar, InventoryItem::FruitPuzzle]
}

/// The estate a new game starts with, in the given language.
pub open spec fn fresh_estate(language: Language) -> EstateView {
    EstateView {
        screen: GameScreen::MainMenu,
        language,
        day: 1,
        coffee_plants: 6,
        civets: 3,
        civet_names: starting_names(),
        selected_civet: None,
        money: 160,
        reputation: 8,
        enclosure_level: 1,
        paperwork_level: 1,
        legal_office: false,
        caretaker: false,
        fruit_sorter: false,
        roasting_shed: false,
        tasting_room: false,
        binturong_home: true,
        goat_present: true,
        inspection: false,
        event: None,
        pending_order: None,
        active_order: None,
        daily_sales: 0,
        daily_expenses: 0,
        day_report: None,
        game_result: None,
        rng_seed: DEFAULT_SEED,
        log: seq![WELCOME@, REMINDER@],
        dirty_visuals: true,
        current_room: PlantationRoom::CoffeeField,
        active_tool_group: ToolGroup::Field,
        settings_open: false,
        inventory_open: false,
        show_layout_guides: false,
        inventory: all_items(),
    }
}

/// The roster after it is made to hold a name for every civet: the three
/// starting names when it was empty, then "Civet n" for each missing one.
pub open spec fn filled_roster(names: Seq<Seq<char>>, civets: nat) -> Seq<Seq<char>>
    decreases civets,
{
    let base = if names.len() == 0 { starting_names() } else { names };
    if base.len() >= civets {
        base
    } else {
        filled_roster(base, (civets - 1) as nat).push(crate::text::with_number("Civet "@, civets as int, ""@))
    }
}

/// What making the roster complete does to the estate.
pub open spec fn roster_ensured(v: EstateView) -> EstateView {
    let names = filled_roster(v.civet_names, v.civets as nat);
    EstateView {
        civet_names: names,
        selected_civet: match v.selected_civet {
            Some(i) => if i >= names.len() { None } else { Some(i) },
            None => None,
        },
        ..v
    }
}

pub fn default_civet_names() -> (names: Vec<String>)
    ensures
        lines(names@) == starting_names(),
{
    let mut names: Vec<String> = Vec::new();
    names.push("Miso".to_owned());
    names.push("Kanel".to_owned());
    names.push("Beanie".to_owned());
    assert(lines(names@) =~= starting_names()) by {
        reveal(lines);
    }
    names
}

/// A completed roster is never empty.
pub proof fn lemma_roster_nonempty(v: EstateView)
    ensures
        roster_ensured(v).civet_names.len() > 0,
{
    lemma_filled_roster_len(v.civet_names, v.civets as nat);
}

/// How making the roster complete changes it (see `RosterChange`).
pub open spec fn roster_change(v: EstateView) -> RosterChange {
    let reset = v.civet_names.len() == 0;
    RosterChange {
        reset,
        added: (filled_roster(v.civet_names, v.civets as nat).len() - if reset { 3 } else { v.civet_names.len() }) as usize,
    }
}

/// How the roster changed: whether it was reset to the starting civets and
/// how many new civets were added after that. The host mirrors this on the
/// civets' care records.
#[derive(Clone, Copy, Debug, PartialEq, Eq, Structural)]
pub struct RosterChange {
    pub reset: bool,
    pub added: usize,
}

proof fn lemma_filled_roster_len(names: Seq<Seq<char>>, civets: nat)
    ensures
        filled_roster(names, civets).len() == if names.len() == 0 {
            if civets <= 3 { 3 } else { civets }
        } else if names.len() >= civets {
            names.len()
        } else {
            civets
        },
    decreases civets,
{
    let base = if names.len() == 0 { starting_names() } else { names };
    if base.len() < civets {
        lemma_filled_roster_len(base, (civets - 1) as nat);
    }
}

proof fn lemma_filled_roster_step(names: Seq<Seq<char>>, civets: nat)
    requires
        names.len() > 0,
        names.len() < civets,
    ensures
        filled_roster(names, civets) == filled_roster(
            names.push(crate::text::with_number("Civet "@, (names.len() + 1) as int, ""@)),
            civets,
        ),
    decreases civets,
{
    let next = names.push(crate::text::with_number("Civet "@, (names.len() + 1) as int, ""@));
    lemma_filled_roster_len(next, civets);
    if names.len() + 1 == civets {
        lemma_filled_roster_len(names, (civets - 1) as nat);
        assert(filled_roster(names, (civets - 1) as nat) == names);
    } else {
        lemma_filled_roster_step(names, (civets - 1) as nat);
    }
}

/// Fills a roster up to `civets` names (see `filled_roster`).
pub fn fill_roster(names: &mut Vec<String>, civets: u32)
    requires
        civets < usize::MAX,
    ensures
        lines(final(names)@) == filled_roster(lines(old(names)@), civets as nat),
{
    reveal(lines);
    if names.len() == 0 {
        *names = default_civet_names();
    }
    proof {
        lemma_filled_roster_len(lines(old(names)@), civets as nat);
    }
    while names.len() < civets as usize
        invariant
            names@.len() > 0,
            civets < usize::MAX,
            filled_roster(lines(names@), civets as nat) == filled_roster(lines(old(names)@), civets as nat),
        decreases civets - names@.len(),
    {
        let next = names.len() + 1;
        let name = number_line("Civet ", next as i64, "");
        let ghost before = lines(names@);
        proof {
            reveal(lines);
            lemma_filled_roster_step(before, civets as nat);
        }
        names.push(name);
        reveal(lines);
        assert(lines(names@) =~= before.push(
            crate::text::with_number("Civet "@, (before.len() + 1) as int, ""@),
        ));
    }
    proof {
        lemma_filled_roster_len(lines(names@), civets as nat);
    }
}

impl Estate {
    /// The text in the estate's language.
    pub fn state_text(&self, en: &'static str, sv: &'static str) -> (s: &'static str)
        ensures
            s@ == in_language(self.language, en@, sv@),
    {
        language_text(self.language, en, sv)
    }

    /// The label a world sprite shows for `key` in the estate's language.
    pub fn world_label(&self, key: &'static str) -> (s: &'static str)
        ensures
            s@ == world_text(self.language, key@),
    {
        world_label_in(self.language, key)
    }

    /// Appends a line to the log, keeping the newest eight.
    pub fn log_line(&mut self, line: String)
        ensures
            final(self)@ == (EstateView { log: logged(old(self)@.log, line@), ..old(self)@ }),
    {
        log_line(&mut self.log, line);
    }

    /// Appends a literal line to the log.
    pub fn log_text(&mut self, line: &str)
        ensures
            final(self)@ == (EstateView { log: logged(old(self)@.log, line@), ..old(self)@ }),
    {
        log_text(&mut self.log, line);
    }

    /// Draws an index below `max` from the seeded random source.
    pub fn rand_index(&mut self, max: usize) -> (index: usize)
        requires
            max > 0,
        ensures
            final(self)@ == (EstateView { rng_seed: next_seed(old(self).rng_seed), ..old(self)@ }),
            index == index_of(final(self).rng_seed, max),
            index < max,
    {
        rand_index(&mut self.rng_seed, max)
    }

    /// Makes the roster hold a name for every civet, and drops a selection
    /// that points past it.
    pub fn ensure_civet_profiles(&mut self) -> (change: RosterChange)
        requires
            old(self).civets < usize::MAX,
        ensures
            final(self)@ == roster_ensured(old(self)@),
            change == roster_change(old(self)@),
    {
        reveal(lines);
        let reset = self.civet_names.len() == 0;
        let start = if reset { 3 } else { self.civet_names.len() };
        proof {
            lemma_filled_roster_len(lines(old(self).civet_names@), old(self).civets as nat);
        }
        let mut names: Vec<String> = Vec::new();
        std::mem::swap(&mut names, &mut self.civet_names);
        fill_roster(&mut names, self.civets);
        let count = names.len();
        let selected = match self.selected_civet {
            Some(i) => if i >= count { None } else { Some(i) },
            None => None,
        };
        self.civet_names = names;
        self.selected_civet = selected;
        RosterChange { reset, added: count - start }
    }

    /// Starts Operation Bitter Bean when suspicion has reached its ceiling.
    pub fn settle(&mut self, suspicion_full: bool)
        ensures
            final(self)@ == (if suspicion_full {
                EstateView { inspection: true, log: logged(old(self)@.log, INSPECTION_BEGINS@), ..old(self)@ }
            } else {
                old(self)@
            }),
    {
        if suspicion_full {
            self.inspection = true;
            log_text(&mut self.log, INSPECTION_BEGINS);
        }
    }
}

} // verus!
