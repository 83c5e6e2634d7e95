//! One player action in the full game, from the button to the rules that
//! answer it, and the checks that follow an action or a tick.
use vstd::prelude::*;
use crate::care::{care_fits, care_rule};
use crate::chores::{
    command, continue_day_rule, group_of, new_chore, quiet, room_of, say, settings_rule, start_rule,
    switch_room_rule, Action, Chore, Command, FieldReading, REPORT_WAITING_EN, REPORT_WAITING_SV,
    command_chore, group_of_action, room_of_action,
};
use crate::effect::{effect, fx, no_effect, Effect, StockMove};
use crate::estate::{roster_change, roster_ensured, Estate, EstateView, GameScreen, RosterChange, INSPECTION_BEGINS};
use crate::events::{fits_i32, resolve_event_fits, resolve_event_rule, EventOption};
use crate::journal::logged;
use crate::orders::{answer_offer_rule, deliver_fits, deliver_rule};
use crate::work::{field_fits, field_rule, fits32, inspection_fits, inspection_rule, office_fits, office_rule};

verus! {

/// Actions that change the screen, the room or the tool group.
pub open spec fn is_navigation(a: Action) -> bool {
    match a {
        Action::StartGame
        | Action::StartNewRun
        | Action::ShowIntro
        | Action::ShowAnimalBook
        | Action::BackToMenu
        | Action::GoSanctuary
        | Action::GoCoffeeField
        | Action::GoRoastery
        | Action::GoPaperworkOffice
        | Action::ShowCareTools
        | Action::ShowFieldTools
        | Action::ShowProductionTools
        | Action::ShowComplianceTools
        | Action::ShowUpgradeTools
        | Action::ShowSystemTools => true,
        _ => false,
    }
}

/// Actions on the care panel, the sack, the settings and the language.
pub open spec fn is_setting(a: Action) -> bool {
    match a {
        Action::CloseAnimalPanel
        | Action::ToggleInventory
        | Action::ShowSettings
        | Action::CloseSettings
        | Action::ToggleLayoutGuides
        | Action::SetLanguageEnglish
        | Action::SetLanguageSwedish => true,
        _ => false,
    }
}

/// The three answers to a letter.
pub open spec fn is_event_option(a: Action) -> bool {
    a == Action::EventOptionA || a == Action::EventOptionB || a == Action::EventOptionC
}

/// The answer an event button gives.
pub open spec fn option_of(a: Action) -> EventOption {
    match a {
        Action::EventOptionB => EventOption::B,
        Action::EventOptionC => EventOption::C,
        _ => EventOption::A,
    }
}

/// Field and roastery work.
pub open spec fn is_field_work(a: Action) -> bool {
    match a {
        Action::PlantCoffee
        | Action::HarvestFruit
        | Action::FeedCivets
        | Action::CollectBeans
        | Action::RoastCoffee
        | Action::SellCoffee => true,
        _ => false,
    }
}

/// The enclosure, the paperwork annex and the upgrades.
pub open spec fn is_office_work(a: Action) -> bool {
    match a {
        Action::ImproveEnclosure
        | Action::ShowPaperwork
        | Action::BuildLegalOffice
        | Action::HireCaretaker
        | Action::BuildFruitSorter
        | Action::BuildRoastingShed
        | Action::BuildTastingRoom => true,
        _ => false,
    }
}

/// Civet care.
pub open spec fn is_care(a: Action) -> bool {
    match a {
        Action::FeedSelectedCivet
        | Action::GiveFruitFromInventory
        | Action::PickUpBeansToInventory
        | Action::PetSelectedCivet
        | Action::InspectSelectedCivet
        | Action::UseTinyBrush
        | Action::UseRibbonCollar
        | Action::UseFruitPuzzle => true,
        _ => false,
    }
}

/// Screens, rooms and tool groups.
pub open spec fn navigation_rule(v: EstateView, a: Action) -> (EstateView, Chore) {
    match a {
        Action::StartGame => start_rule(v, false),
        Action::StartNewRun => start_rule(v, true),
        Action::ShowIntro => (EstateView { screen: GameScreen::Intro, ..v }, quiet()),
        Action::ShowAnimalBook => (EstateView { screen: GameScreen::AnimalBook, ..v }, quiet()),
        Action::BackToMenu => (EstateView { screen: GameScreen::MainMenu, settings_open: false, ..v }, quiet()),
        Action::GoSanctuary | Action::GoCoffeeField | Action::GoRoastery | Action::GoPaperworkOffice => {
            switch_room_rule(v, room_of(a))
        },
        _ => (EstateView { active_tool_group: group_of(a), ..v }, quiet()),
    }
}

/// The chore for an answer to a letter or an offer: the meters move, are
/// clamped when the answer says so, and no morale check follows.
pub open spec fn reply(e: Effect, clamp: bool) -> Chore {
    crate::chores::chore(e, clamp, false)
}

/// The routine work outside an inspection. The morale check follows.
pub open spec fn work_rule(v: EstateView, a: Action, r: FieldReading) -> (EstateView, Chore) {
    if is_field_work(a) {
        field_rule(v, a, r)
    } else if is_office_work(a) {
        office_rule(v, a)
    } else if is_care(a) {
        care_rule(v, a, r)
    } else if a == Action::DeliverOrder {
        let (w, e, clamp) = deliver_rule(v, r.order_covered);
        (w, crate::chores::chore(e, clamp, true))
    } else {
        (v, crate::chores::chore(no_effect(), false, true))
    }
}

/// What one player action does to the estate, and what the host does
/// after it. In order: screens, rooms and tool groups; the day report's
/// acknowledgement; saving, loading and the time speed (host work); the
/// settings; the answers to a letter and to an offer. While a day report or
/// the final result waits, nothing else runs. During Operation Bitter Bean
/// only its three answers do anything. Otherwise the work is done and the
/// morale check follows.
pub open spec fn act_rule(v: EstateView, a: Action, r: FieldReading) -> (EstateView, Chore) {
    if is_navigation(a) {
        navigation_rule(v, a)
    } else if a == Action::ContinueDay {
        continue_day_rule(v)
    } else if a == Action::Save {
        (v, command(Command::Save))
    } else if a == Action::Load {
        (v, command(Command::Load))
    } else if a == Action::CycleTimeScale {
        (v, command(Command::CycleTimeScale))
    } else if is_setting(a) {
        settings_rule(v, a)
    } else if is_event_option(a) {
        let (w, e, clamp) = resolve_event_rule(v, option_of(a), r.content);
        (w, reply(e, clamp))
    } else if a == Action::AcceptOrder || a == Action::DeclineOrder {
        let (w, e, clamp) = answer_offer_rule(v, a == Action::AcceptOrder);
        (w, reply(e, clamp))
    } else if v.day_report is Some || v.game_result is Some {
        (say(v, REPORT_WAITING_EN@, REPORT_WAITING_SV@), quiet())
    } else if v.inspection {
        inspection_rule(v, a, r)
    } else {
        work_rule(v, a, r)
    }
}

/// Whether `act_rule` stays inside the machine types: the money, reputation,
/// counters and the day's books it changes still fit.
pub open spec fn act_fits(v: EstateView, a: Action, r: FieldReading) -> bool {
    if is_navigation(a) || is_setting(a) || a == Action::ContinueDay || a == Action::Save || a == Action::Load
        || a == Action::CycleTimeScale {
        true
    } else if is_event_option(a) {
        resolve_event_fits(v, option_of(a), r.content)
    } else if a == Action::AcceptOrder || a == Action::DeclineOrder {
        v.pending_order is Some && a == Action::DeclineOrder ==> v.reputation > i32::MIN
    } else if v.day_report is Some || v.game_result is Some {
        true
    } else if v.inspection {
        inspection_fits(v, a, r)
    } else if is_field_work(a) {
        field_fits(v, a, r)
    } else if is_office_work(a) {
        office_fits(v, a)
    } else if is_care(a) {
        care_fits(v, a)
    } else if a == Action::DeliverOrder {
        deliver_fits(v, r.order_covered)
    } else {
        true
    }
}

/// The morale check after a routine action: unhappy civets (happiness
/// below 35) add two points of suspicion and cost a point of reputation.
pub open spec fn morale_rule(v: EstateView, unhappy: bool) -> (EstateView, Effect) {
    if unhappy {
        (EstateView { reputation: v.reputation - 1, ..v }, fx(200, 0, StockMove::Still))
    } else {
        (v, no_effect())
    }
}

/// The discrete side of clamping the meters: the roster is completed, and
/// when suspicion has reached its ceiling Operation Bitter Bean begins.
pub open spec fn clamped(v: EstateView, suspicion_full: bool) -> EstateView {
    let w = roster_ensured(v);
    if suspicion_full {
        EstateView { inspection: true, log: logged(w.log, INSPECTION_BEGINS@), ..w }
    } else {
        w
    }
}

/// The pressures of one tick of the simulation, applied in order: a crowded
/// field (more than 24 plants) adds 0.25 suspicion, a bad name (negative
/// reputation) adds 0.2.
pub open spec fn pressure(v: EstateView) -> (Effect, Effect) {
    (
        fx(if v.coffee_plants > 24 { 25 } else { 0 }, 0, StockMove::Still),
        fx(if v.reputation < 0 { 20 } else { 0 }, 0, StockMove::Still),
    )
}

/// Starving civets (average hunger above 82) cost a point of reputation
/// and add 0.45 suspicion.
pub open spec fn hunger_rule(v: EstateView, starving: bool) -> (EstateView, Effect) {
    if starving {
        (EstateView { reputation: v.reputation - 1, ..v }, fx(45, 0, StockMove::Still))
    } else {
        (v, no_effect())
    }
}

pub const LOADED: &'static str = "Loaded plantation ledger from disk.";
pub const SAVED: &'static str = "Saved an alarmingly neat plantation ledger.";
pub const SAVE_FAILED: &'static str = "Save failed. The paperwork drawer jammed.";

/// Selecting a civet by its index in the completed roster; an index past the
/// roster selects nothing.
pub open spec fn select_rule(v: EstateView, index: usize) -> EstateView {
    let w = roster_ensured(v);
    if index < w.civet_names.len() {
        EstateView { selected_civet: Some(index), ..w }
    } else {
        w
    }
}

/// A state read from the save file, made whole.
pub open spec fn loaded_rule(v: EstateView) -> EstateView {
    let w = roster_ensured(v);
    EstateView { log: logged(w.log, LOADED@), dirty_visuals: true, ..w }
}

fn reply_chore(e: Effect, clamp: bool) -> (c: Chore)
    ensures
        c == reply(e, clamp),
{
    new_chore(e, clamp, false)
}

fn is_navigation_action(a: Action) -> (b: bool)
    ensures
        b == is_navigation(a),
{
    match a {
        Action::StartGame
        | Action::StartNewRun
        | Action::ShowIntro
        | Action::ShowAnimalBook
        | Action::BackToMenu
        | Action::GoSanctuary
        | Action::GoCoffeeField
        | Action::GoRoastery
        | Action::GoPaperworkOffice
        | Action::ShowCareTools
        | Action::ShowFieldTools
        | Action::ShowProductionTools
        | Action::ShowComplianceTools
        | Action::ShowUpgradeTools
        | Action::ShowSystemTools => true,
        _ => false,
    }
}

fn is_setting_action(a: Action) -> (b: bool)
    ensures
        b == is_setting(a),
{
    match a {
        Action::CloseAnimalPanel
        | Action::ToggleInventory
        | Action::ShowSettings
        | Action::CloseSettings
        | Action::ToggleLayoutGuides
        | Action::SetLanguageEnglish
        | Action::SetLanguageSwedish => true,
        _ => false,
    }
}

fn option_of_action(a: Action) -> (o: EventOption)
    ensures
        o == option_of(a),
{
    match a {
        Action::EventOptionB => EventOption::B,
        Action::EventOptionC => EventOption::C,
        _ => EventOption::A,
    }
}

fn is_field_action(a: Action) -> (b: bool)
    ensures
        b == is_field_work(a),
{
    match a {
        Action::PlantCoffee
        | Action::HarvestFruit
        | Action::FeedCivets
        | Action::CollectBeans
        | Action::RoastCoffee
        | Action::SellCoffee => true,
        _ => false,
    }
}

fn is_office_action(a: Action) -> (b: bool)
    ensures
        b == is_office_work(a),
{
    match a {
        Action::ImproveEnclosure
        | Action::ShowPaperwork
        | Action::BuildLegalOffice
        | Action::HireCaretaker
        | Action::BuildFruitSorter
        | Action::BuildRoastingShed
        | Action::BuildTastingRoom => true,
        _ => false,
    }
}

fn is_care_action(a: Action) -> (b: bool)
    ensures
        b == is_care(a),
{
    match a {
        Action::FeedSelectedCivet
        | Action::GiveFruitFromInventory
        | Action::PickUpBeansToInventory
        | Action::PetSelectedCivet
        | Action::InspectSelectedCivet
        | Action::UseTinyBrush
        | Action::UseRibbonCollar
        | Action::UseFruitPuzzle => true,
        _ => false,
    }
}

impl Estate {
    /// Screens, rooms and tool groups (see `navigation_rule`).
    pub fn navigate(&mut self, a: Action) -> (c: Chore)
        ensures
            (final(self)@, c) == navigation_rule(old(self)@, a),
    {
        match a {
            Action::StartGame => self.start(false),
            Action::StartNewRun => self.start(true),
            Action::ShowIntro | Action::ShowAnimalBook | Action::BackToMenu => self.show_screen(a),
            Action::GoSanctuary | Action::GoCoffeeField | Action::GoRoastery | Action::GoPaperworkOffice => {
                self.switch_room(room_of_action(a))
            },
            _ => self.show_tools(a),
        }
    }

    fn show_screen(&mut self, a: Action) -> (c: Chore)
        requires
            a == Action::ShowIntro || a == Action::ShowAnimalBook || a == Action::BackToMenu,
        ensures
            (final(self)@, c) == navigation_rule(old(self)@, a),
    {
        let menu = a == Action::BackToMenu;
        self.screen = if a == Action::ShowIntro {
            GameScreen::Intro
        } else if a == Action::ShowAnimalBook {
            GameScreen::AnimalBook
        } else {
            GameScreen::MainMenu
        };
        self.settings_open = self.settings_open && !menu;
        new_chore(effect(0, 0, StockMove::Still), false, false)
    }

    fn show_tools(&mut self, a: Action) -> (c: Chore)
        requires
            a != Action::StartGame && a != Action::StartNewRun,
            a != Action::ShowIntro && a != Action::ShowAnimalBook && a != Action::BackToMenu,
            a != Action::GoSanctuary && a != Action::GoCoffeeField,
            a != Action::GoRoastery && a != Action::GoPaperworkOffice,
        ensures
            (final(self)@, c) == navigation_rule(old(self)@, a),
    {
        self.active_tool_group = group_of_action(a);
        new_chore(effect(0, 0, StockMove::Still), false, false)
    }

    /// Whether civet care stays inside the machine types (see `care_fits`).
    pub fn care_fits(&self, a: Action) -> (ok: bool)
        ensures
            ok == care_fits(self@, a),
    {
        let raises = match a {
            Action::FeedSelectedCivet
            | Action::GiveFruitFromInventory
            | Action::PickUpBeansToInventory
            | Action::InspectSelectedCivet
            | Action::UseRibbonCollar
            | Action::UseFruitPuzzle => false,
            _ => true,
        };
        (self.civets as u64) < (usize::MAX as u64) && (!raises || fits32(self.reputation as i64 + 1))
    }

    /// Whether `run_action` stays inside the machine types (see `act_fits`).
    pub fn action_fits(&self, a: Action, r: FieldReading) -> (ok: bool)
        ensures
            ok == act_fits(self@, a, r),
    {
        if is_navigation_action(a) || is_setting_action(a) || a == Action::ContinueDay || a == Action::Save
            || a == Action::Load || a == Action::CycleTimeScale {
            true
        } else if a == Action::EventOptionA || a == Action::EventOptionB || a == Action::EventOptionC {
            self.resolve_event_fits(option_of_action(a), r.content)
        } else if a == Action::AcceptOrder || a == Action::DeclineOrder {
            !(self.pending_order.is_some() && a == Action::DeclineOrder) || self.reputation > i32::MIN
        } else if self.day_report.is_some() || self.game_result.is_some() {
            true
        } else if self.inspection {
            self.inspection_fits(a, r)
        } else if is_field_action(a) {
            self.field_fits(a, r)
        } else if is_office_action(a) {
            self.office_fits(a)
        } else if is_care_action(a) {
            self.care_fits(a)
        } else if a == Action::DeliverOrder {
            self.deliver_fits(r.order_covered)
        } else {
            true
        }
    }

    /// Routine work outside an inspection (see `work_rule`).
    fn work(&mut self, a: Action, r: FieldReading) -> (c: Chore)
        requires
            !is_navigation(a),
            !is_setting(a),
            !is_event_option(a),
            a != Action::AcceptOrder && a != Action::DeclineOrder,
            a != Action::ContinueDay && a != Action::Save && a != Action::Load && a != Action::CycleTimeScale,
            old(self)@.day_report is None && old(self)@.game_result is None && !old(self).inspection,
            act_fits(old(self)@, a, r),
        ensures
            (final(self)@, c) == work_rule(old(self)@, a, r),
    {
        if is_field_action(a) {
            self.field_work(a, r)
        } else if is_office_action(a) {
            self.office_work(a)
        } else if is_care_action(a) {
            self.civet_care(a, r)
        } else if a == Action::DeliverOrder {
            let (e, clamp) = self.deliver_order(r.order_covered);
            new_chore(e, clamp, true)
        } else {
            new_chore(effect(0, 0, StockMove::Still), false, true)
        }
    }

    /// Runs one player action (see `act_rule`); `r` is what the rules need
    /// to know of the host's stocks and of the keeper.
    pub fn run_action(&mut self, a: Action, r: FieldReading) -> (c: Chore)
        requires
            act_fits(old(self)@, a, r),
        ensures
            (final(self)@, c) == act_rule(old(self)@, a, r),
    {
        if is_navigation_action(a) {
            self.navigate(a)
        } else if a == Action::ContinueDay {
            self.continue_day()
        } else if a == Action::Save {
            command_chore(Command::Save)
        } else if a == Action::Load {
            command_chore(Command::Load)
        } else if a == Action::CycleTimeScale {
            command_chore(Command::CycleTimeScale)
        } else if is_setting_action(a) {
            self.settings(a)
        } else if a == Action::EventOptionA || a == Action::EventOptionB || a == Action::EventOptionC {
            let (e, clamp) = self.resolve_event(option_of_action(a), r.content);
            reply_chore(e, clamp)
        } else if a == Action::AcceptOrder || a == Action::DeclineOrder {
            let (e, clamp) = self.answer_offer(a == Action::AcceptOrder);
            reply_chore(e, clamp)
        } else if self.day_report.is_some() || self.game_result.is_some() {
            self.say(REPORT_WAITING_EN, REPORT_WAITING_SV);
            new_chore(effect(0, 0, StockMove::Still), false, false)
        } else if self.inspection {
            self.answer_inspection(a, r)
        } else {
            self.work(a, r)
        }
    }

    /// The morale check after a routine action (see `morale_rule`).
    pub fn morale_check(&mut self, unhappy: bool) -> (e: Effect)
        requires
            unhappy ==> old(self).reputation > i32::MIN,
        ensures
            (final(self)@, e) == morale_rule(old(self)@, unhappy),
    {
        if unhappy {
            self.reputation = self.reputation - 1;
            effect(200, 0, StockMove::Still)
        } else {
            effect(0, 0, StockMove::Still)
        }
    }

    /// The discrete side of clamping the meters (see `clamped`); returns how
    /// the roster changed.
    pub fn clamp(&mut self, suspicion_full: bool) -> (change: RosterChange)
        requires
            old(self).civets < usize::MAX,
        ensures
            final(self)@ == clamped(old(self)@, suspicion_full),
            change == roster_change(old(self)@),
    {
        let change = self.ensure_civet_profiles();
        self.settle(suspicion_full);
        change
    }

    /// The pressures of one tick (see `pressure`).
    pub fn tick_pressure(&self) -> (r: (Effect, Effect))
        ensures
            r == pressure(self@),
    {
        (
            effect(if self.coffee_plants > 24 { 25 } else { 0 }, 0, StockMove::Still),
            effect(if self.reputation < 0 { 20 } else { 0 }, 0, StockMove::Still),
        )
    }

    /// The penalty for starving civets (see `hunger_rule`).
    pub fn hunger_penalty(&mut self, starving: bool) -> (e: Effect)
        requires
            starving ==> old(self).reputation > i32::MIN,
        ensures
            (final(self)@, e) == hunger_rule(old(self)@, starving),
    {
        if starving {
            self.reputation = self.reputation - 1;
            effect(45, 0, StockMove::Still)
        } else {
            effect(0, 0, StockMove::Still)
        }
    }

    /// Opens the care panel for civet `index` once the roster is complete;
    /// says whether the index named a civet (the host then logs the civet's
    /// mood and hunger).
    pub fn select_civet_by_index(&mut self, index: usize) -> (r: (RosterChange, bool))
        requires
            old(self).civets < usize::MAX,
        ensures
            final(self)@ == select_rule(old(self)@, index),
            r.0 == roster_change(old(self)@),
            r.1 == (index < roster_ensured(old(self)@).civet_names.len()),
    {
        let change = self.ensure_civet_profiles();
        proof {
            crate::journal::lemma_lines_len(self.civet_names@);
        }
        if index >= self.civet_names.len() {
            return (change, false);
        }
        self.selected_civet = Some(index);
        (change, true)
    }

    /// Completes a state read from the save file: the roster is made whole,
    /// the load is logged and the visuals are redrawn.
    pub fn loaded(&mut self) -> (change: RosterChange)
        requires
            old(self).civets < usize::MAX,
        ensures
            final(self)@ == loaded_rule(old(self)@),
            change == roster_change(old(self)@),
    {
        let change = self.ensure_civet_profiles();
        self.log_text(LOADED);
        self.dirty_visuals = true;
        change
    }

    /// Logs whether the save file was written.
    pub fn saved(&mut self, written: bool)
        ensures
            final(self)@ == (EstateView {
                log: logged(old(self)@.log, if written { SAVED@ } else { SAVE_FAILED@ }),
                ..old(self)@
            }),
    {
        self.log_text(if written { SAVED } else { SAVE_FAILED });
    }
}

} // verus!
