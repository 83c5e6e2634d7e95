//! What holds of the full game across its operations.
use vstd::prelude::*;
use crate::care::{care_rule, item_rule, pet_rule, sack_fruit_rule, sack_target, tray_rule};
use crate::chores::{
    chore, continue_day_rule, quiet, say, settings_rule, start_rule, switch_room_rule, tools_for, Action, Chore,
    FieldReading, ALREADY_BUILT_EN, ALREADY_BUILT_SV, REPORT_WAITING_EN, REPORT_WAITING_SV, WORK_PAUSED_EN,
    WORK_PAUSED_SV,
};
use crate::effect::no_effect;
use crate::estate::{fresh_estate, roster_ensured, EstateView, GameScreen, FINAL_DAY};
use crate::events::{resolve_event_rule, EventOption};
use crate::journal::{logged, LOG_CAPACITY};
use crate::localization::{Language, PlantationRoom};
use crate::orders::{answer_offer_rule, deliver_rule};
use crate::day::{file_report_rule, DayTally, ReportReading};
use crate::play::{
    act_rule, is_care, is_event_option, is_field_work, is_navigation, is_office_work, is_setting, loaded_rule,
    navigation_rule, select_rule, work_rule,
};
use crate::work::{
    buy_upgrade_rule, built_rule, enclosed_rule, fed_rule, field_rule, goat_rule, has_upgrade, inspection_rule,
    office_rule, paperwork_shown_rule, planted_rule, read_paperwork_rule, roasted_rule, sold_rule,
    tasting_passed_rule, tasting_spoons_rule, upgrade_cost, Upgrade,
};

verus! {

/// The shape every reachable estate keeps: the log holds at most eight
/// lines, the roster is not empty, and a selected civet is on the roster.
pub open spec fn well_kept(v: EstateView) -> bool {
    &&& v.log.len() <= LOG_CAPACITY
    &&& v.civet_names.len() > 0
    &&& match v.selected_civet {
        Some(i) => i < v.civet_names.len(),
        None => true,
    }
}

/// Every upgrade built in `v` is still built in `w`.
pub open spec fn keeps_upgrades(v: EstateView, w: EstateView) -> bool {
    &&& v.legal_office ==> w.legal_office
    &&& v.caretaker ==> w.caretaker
    &&& v.fruit_sorter ==> w.fruit_sorter
    &&& v.roasting_shed ==> w.roasting_shed
    &&& v.tasting_room ==> w.tasting_room
}

/// `w` follows `v` within the rules: it is well kept when `v` is, the
/// roster is the same, and no upgrade is lost.
pub open spec fn follows(v: EstateView, w: EstateView) -> bool {
    &&& well_kept(v) ==> well_kept(w)
    &&& keeps_upgrades(v, w)
}

/// A log written once more keeps at most eight lines, the newest last.
pub proof fn lemma_log_keeps_eight(log: Seq<Seq<char>>, line: Seq<char>)
    ensures
        logged(log, line).len() <= LOG_CAPACITY,
        logged(log, line).len() > 0,
        logged(log, line).last() == line,
        log.len() < LOG_CAPACITY ==> logged(log, line) == log.push(line),
{
    reveal(logged);
}

proof fn lemma_say_follows(v: EstateView, en: Seq<char>, sv: Seq<char>)
    ensures
        follows(v, say(v, en, sv)),
{
    reveal(logged);
}

proof fn lemma_roster_follows(v: EstateView)
    ensures
        follows(v, roster_ensured(v)),
        well_kept(roster_ensured(v)) <== v.log.len() <= LOG_CAPACITY,
{
    crate::estate::lemma_roster_nonempty(v);
}

proof fn lemma_field_leaves_follow(v: EstateView)
    ensures
        follows(v, planted_rule(v).0),
        follows(v, fed_rule(v).0),
        follows(v, roasted_rule(v).0),
{
    reveal(logged);
    reveal(planted_rule);
    reveal(fed_rule);
    reveal(roasted_rule);
}

proof fn lemma_sold_follows(v: EstateView, s: crate::ledger::Sale)
    ensures
        follows(v, sold_rule(v, s).0),
{
    reveal(sold_rule);
}

proof fn lemma_field_follows(v: EstateView, a: Action, r: FieldReading)
    ensures
        follows(v, field_rule(v, a, r).0),
{
    lemma_field_leaves_follow(v);
    lemma_say_follows(v, crate::chores::NO_PLANT_MONEY_EN@, crate::chores::NO_PLANT_MONEY_SV@);
    lemma_say_follows(v, crate::chores::NO_FRUIT_EN@, crate::chores::NO_FRUIT_SV@);
    lemma_say_follows(v, crate::chores::NO_BEANS_EN@, crate::chores::NO_BEANS_SV@);
    lemma_say_follows(v, crate::chores::NO_ROASTED_EN@, crate::chores::NO_ROASTED_SV@);
    match r.sale {
        Some(s) => lemma_sold_follows(v, s),
        None => {},
    }
}

proof fn lemma_office_follows(v: EstateView, a: Action)
    ensures
        follows(v, office_rule(v, a).0),
{
    reveal(logged);
    reveal(enclosed_rule);
    reveal(paperwork_shown_rule);
    reveal(built_rule);
}

proof fn lemma_inspection_follows(v: EstateView, a: Action, r: FieldReading)
    ensures
        follows(v, inspection_rule(v, a, r).0),
{
    reveal(logged);
    reveal(read_paperwork_rule);
    reveal(tasting_passed_rule);
    reveal(tasting_spoons_rule);
    reveal(goat_rule);
}

proof fn lemma_care_leaves_follow(w: EstateView, i: usize)
    ensures
        follows(w, tray_rule(w, i).0),
        follows(w, pet_rule(w, i).0),
        follows(w, item_rule(w, i, crate::estate::InventoryItem::TinyBrush).0),
        follows(w, item_rule(w, i, crate::estate::InventoryItem::RibbonCollar).0),
        follows(w, item_rule(w, i, crate::estate::InventoryItem::FruitPuzzle).0),
{
    reveal(logged);
    reveal(tray_rule);
    reveal(pet_rule);
    reveal(item_rule);
}

proof fn lemma_sack_follows(w: EstateView)
    ensures
        follows(w, sack_fruit_rule(w).0),
{
    reveal(logged);
    reveal(sack_fruit_rule);
}

proof fn lemma_care_follows(v: EstateView, a: Action, r: FieldReading)
    ensures
        follows(v, care_rule(v, a, r).0),
{
    let w = roster_ensured(v);
    lemma_roster_follows(v);
    lemma_say_follows(v, crate::chores::TO_SANCTUARY_EN@, crate::chores::TO_SANCTUARY_SV@);
    lemma_say_follows(v, crate::chores::EMPTY_SACK_EN@, crate::chores::EMPTY_SACK_SV@);
    lemma_say_follows(v, crate::chores::WALK_CLOSER_EN@, crate::chores::WALK_CLOSER_SV@);
    lemma_say_follows(v, crate::chores::BEANS_NEAR_EN@, crate::chores::BEANS_NEAR_SV@);
    lemma_say_follows(v, crate::chores::WORK_AREA_EN@, crate::chores::WORK_AREA_SV@);
    lemma_say_follows(w, crate::chores::SELECT_FIRST_EN@, crate::chores::SELECT_FIRST_SV@);
    lemma_say_follows(w, crate::chores::NO_TRAY_EN@, crate::chores::NO_TRAY_SV@);
    lemma_say_follows(w, crate::chores::NOT_IN_BASKET_EN@, crate::chores::NOT_IN_BASKET_SV@);
    lemma_sack_follows(w);
    match w.selected_civet {
        Some(i) => lemma_care_leaves_follow(w, i),
        None => {},
    }
}

proof fn lemma_work_follows(v: EstateView, a: Action, r: FieldReading)
    ensures
        follows(v, work_rule(v, a, r).0),
{
    lemma_field_follows(v, a, r);
    lemma_office_follows(v, a);
    lemma_care_follows(v, a, r);
    reveal(logged);
}

proof fn lemma_replies_follow(v: EstateView, o: EventOption, content: bool, accept: bool)
    ensures
        follows(v, resolve_event_rule(v, o, content).0),
        follows(v, answer_offer_rule(v, accept).0),
{
    reveal(logged);
}

proof fn lemma_settings_follow(v: EstateView, a: Action)
    ensures
        follows(v, settings_rule(v, a).0),
        follows(v, continue_day_rule(v).0),
{
    reveal(logged);
}

/// A new game is well kept.
pub proof fn lemma_fresh_well_kept(language: Language)
    ensures
        well_kept(fresh_estate(language)),
{
}

proof fn lemma_navigation_follows(v: EstateView, a: Action)
    ensures
        well_kept(v) ==> well_kept(navigation_rule(v, a).0),
        a != Action::StartGame && a != Action::StartNewRun ==> keeps_upgrades(v, navigation_rule(v, a).0),
{
    reveal(logged);
    reveal(start_rule);
    reveal(switch_room_rule);
}

/// Every player action keeps the estate well kept: at most eight log
/// lines, a roster that is not empty, and a selection on the roster.
pub proof fn lemma_actions_keep_shape(v: EstateView, a: Action, r: FieldReading)
    requires
        well_kept(v),
    ensures
        well_kept(act_rule(v, a, r).0),
{
    lemma_navigation_follows(v, a);
    lemma_settings_follow(v, a);
    lemma_replies_follow(v, crate::play::option_of(a), r.content, a == Action::AcceptOrder);
    lemma_say_follows(v, REPORT_WAITING_EN@, REPORT_WAITING_SV@);
    lemma_inspection_follows(v, a, r);
    lemma_work_follows(v, a, r);
}

/// No action but starting a game over takes an upgrade away.
pub proof fn lemma_upgrades_last(v: EstateView, a: Action, r: FieldReading)
    requires
        a != Action::StartGame,
        a != Action::StartNewRun,
    ensures
        keeps_upgrades(v, act_rule(v, a, r).0),
{
    if is_navigation(a) {
        lemma_navigation_follows(v, a);
    } else if is_setting(a) || a == Action::ContinueDay {
        lemma_settings_follow(v, a);
    } else if is_event_option(a) || a == Action::AcceptOrder || a == Action::DeclineOrder {
        lemma_replies_follow(v, crate::play::option_of(a), r.content, a == Action::AcceptOrder);
    } else if v.day_report is Some || v.game_result is Some {
        lemma_say_follows(v, REPORT_WAITING_EN@, REPORT_WAITING_SV@);
    } else if v.inspection {
        lemma_inspection_follows(v, a, r);
    } else {
        lemma_work_follows(v, a, r);
    }
}

/// The checks the host runs after an action or a tick keep the estate well
/// kept: the morale check, clamping, the hunger penalty, and selecting a
/// civet.
pub proof fn lemma_checks_keep_shape(v: EstateView, flag: bool, index: usize)
    requires
        well_kept(v),
    ensures
        well_kept(crate::play::morale_rule(v, flag).0),
        well_kept(crate::play::clamped(v, flag)),
        well_kept(crate::play::hunger_rule(v, flag).0),
        well_kept(select_rule(v, index)),
{
    reveal(logged);
    lemma_roster_follows(v);
}

/// New letters and offers keep the estate well kept.
pub proof fn lemma_mail_keeps_shape(v: EstateView, quotes: crate::orders::OrderQuotes)
    requires
        well_kept(v),
    ensures
        well_kept(crate::events::post_event_rule(v)),
        well_kept(crate::orders::post_offer_rule(v, quotes)),
{
    reveal(logged);
}

/// The end of a day keeps the estate well kept.
pub proof fn lemma_day_end_keeps_shape(v: EstateView, dr: crate::day::DayReading, t: DayTally, rr: ReportReading)
    requires
        well_kept(v),
    ensures
        well_kept(crate::day::close_books_rule(v, dr).0),
        well_kept(file_report_rule(v, t, rr)),
{
    reveal(logged);
    let c = crate::day::charged(v);
    let (a, r1, s1) = crate::day::expire_active(c, v.day);
    let (p, r2, s2) = crate::day::expire_pending(a, v.day);
    assert(well_kept(c));
    assert(well_kept(a));
    assert(well_kept(p));
}

/// A state read from a save file is well kept once loaded, whatever it held.
pub proof fn lemma_loaded_well_kept(v: EstateView)
    ensures
        well_kept(loaded_rule(v)),
{
    reveal(logged);
    crate::estate::lemma_roster_nonempty(v);
}

/// A purchase (a shrub, the enclosure, the paperwork annex or an upgrade)
/// never spends more than the money on hand: money that was not negative
/// stays so.
pub proof fn lemma_purchases_never_overdraw(v: EstateView, a: Action, r: FieldReading)
    requires
        a == Action::PlantCoffee || is_office_work(a),
        v.money >= 0,
        v.enclosure_level <= i32::MAX,
        v.paperwork_level <= i32::MAX,
    ensures
        act_rule(v, a, r).0.money >= 0,
{
    reveal(logged);
    reveal(planted_rule);
    reveal(enclosed_rule);
    reveal(paperwork_shown_rule);
    reveal(built_rule);
    reveal(read_paperwork_rule);
    reveal(tasting_passed_rule);
    reveal(tasting_spoons_rule);
    reveal(goat_rule);
    reveal(start_rule);
    reveal(switch_room_rule);
}

/// During Operation Bitter Bean every action other than its three answers,
/// the screens, settings, host work and the letters only logs that work is
/// paused.
pub proof fn lemma_inspection_pauses_work(v: EstateView, a: Action, r: FieldReading)
    requires
        v.inspection,
        v.day_report is None,
        v.game_result is None,
        is_field_work(a) || is_office_work(a) || is_care(a) || a == Action::DeliverOrder,
    ensures
        act_rule(v, a, r) == (say(v, WORK_PAUSED_EN@, WORK_PAUSED_SV@), chore(no_effect(), true, false)),
{
}

/// While a day report or the final result waits, the day's work only logs
/// that the report waits.
pub proof fn lemma_waiting_report_blocks_work(v: EstateView, a: Action, r: FieldReading)
    requires
        v.day_report is Some || v.game_result is Some,
        is_field_work(a) || is_office_work(a) || is_care(a) || a == Action::DeliverOrder || a
            == Action::InspectPaperwork || a == Action::InspectTasting || a == Action::InspectGoat,
    ensures
        act_rule(v, a, r) == (say(v, REPORT_WAITING_EN@, REPORT_WAITING_SV@), quiet()),
{
}

/// Answering a letter or an offer uses it up: afterwards no letter (or no
/// offer) waits.
pub proof fn lemma_answers_use_up_the_letter(v: EstateView, a: Action, r: FieldReading)
    ensures
        is_event_option(a) ==> act_rule(v, a, r).0.event is None,
        (a == Action::AcceptOrder || a == Action::DeclineOrder) ==> act_rule(v, a, r).0.pending_order is None,
{
}

/// An upgrade is bought at most once: a second purchase only logs that it
/// is in place; an affordable first one builds it for its price.
pub proof fn lemma_upgrade_bought_once(v: EstateView, u: Upgrade)
    ensures
        has_upgrade(v, u) ==> buy_upgrade_rule(v, u).0 == say(v, ALREADY_BUILT_EN@, ALREADY_BUILT_SV@),
        !has_upgrade(v, u) && v.money >= upgrade_cost(u) ==> {
            let w = buy_upgrade_rule(v, u).0;
            &&& has_upgrade(w, u)
            &&& w.money == v.money - upgrade_cost(u)
            &&& w.daily_expenses == v.daily_expenses + upgrade_cost(u)
        },
{
    reveal(built_rule);
}

/// At the end of a day the day's sales and costs start over; the run ends
/// once the last day is filed, and otherwise the next day begins.
pub proof fn lemma_days_run_out(v: EstateView, t: DayTally, r: ReportReading)
    requires
        v.game_result is None,
    ensures
        file_report_rule(v, t, r).daily_sales == 0,
        file_report_rule(v, t, r).daily_expenses == 0,
        file_report_rule(v, t, r).day_report is Some,
        t.day >= FINAL_DAY ==> file_report_rule(v, t, r).game_result is Some,
        file_report_rule(v, t, r).game_result is None ==> file_report_rule(v, t, r).day == v.day + 1,
        file_report_rule(v, t, r).game_result is Some ==> file_report_rule(v, t, r).day == v.day,
{
}

/// Entering a room opens its tools, and a civet stays selected only in the
/// sanctuary.
pub proof fn lemma_rooms_open_their_tools(v: EstateView, room: PlantationRoom)
    ensures
        switch_room_rule(v, room).0.current_room == room,
        switch_room_rule(v, room).0.active_tool_group == tools_for(room),
        room != PlantationRoom::Sanctuary ==> switch_room_rule(v, room).0.selected_civet is None,
        room == PlantationRoom::Sanctuary ==> switch_room_rule(v, room).0.selected_civet == v.selected_civet,
{
    reveal(switch_room_rule);
}

/// A new run starts from the opening estate, in the same language, on the
/// playing screen.
pub proof fn lemma_new_run_starts_over(v: EstateView)
    ensures
        ({
            let w = start_rule(v, true).0;
            let f = fresh_estate(v.language);
            &&& w == EstateView { screen: GameScreen::Playing, log: w.log, ..f }
            &&& w.log == logged(f.log, if v.language == Language::Swedish {
                crate::chores::NEW_RUN_SV@
            } else {
                crate::chores::NEW_RUN_EN@
            })
        }),
{
    reveal(start_rule);
}

/// Closing a day's books charges the upkeep exactly once: the money falls
/// by it and the day's costs rise by it, whatever else expires.
pub proof fn lemma_upkeep_is_booked(v: EstateView, r: crate::day::DayReading)
    ensures
        crate::day::close_books_rule(v, r).0.money == v.money - crate::day::upkeep_of(v),
        crate::day::close_books_rule(v, r).0.daily_expenses == v.daily_expenses + crate::day::upkeep_of(v),
        crate::day::close_books_rule(v, r).1.upkeep == crate::day::upkeep_of(v) as i32,
{
}

/// The last day decides the run. Without debt below $80 or reputation at
/// or below -8, the run is won exactly when it ends with at least $320,
/// reputation at least 18 and suspicion below 80 (`r.trusted`); with
/// suspicion at 80 or more it is failed, however rich and reputable.
pub proof fn lemma_last_day_decides_the_run(v: EstateView, t: DayTally, r: ReportReading)
    requires
        t.day >= 7,
    ensures
        ({
            let w = file_report_rule(v, t, r);
            &&& w.game_result is Some
            &&& (w.game_result matches Some(crate::estate::ResultView::Won(_))) <==> (v.money >= -80
                && v.reputation > -8 && v.money >= 320 && v.reputation >= 18 && r.trusted)
            &&& !r.trusted ==> w.game_result matches Some(crate::estate::ResultView::Failed(_))
        }),
{
}

/// Before the last day only debt below $80 or reputation at or below -8
/// ends the run, and then it is failed.
pub proof fn lemma_early_days_only_fail(v: EstateView, t: DayTally, r: ReportReading)
    requires
        t.day < 7,
        v.game_result is None,
    ensures
        ({
            let w = file_report_rule(v, t, r);
            &&& (w.game_result is Some) <==> (v.money < -80 || v.reputation <= -8)
            &&& w.game_result is Some ==> w.game_result matches Some(crate::estate::ResultView::Failed(_))
        }),
{
}

/// Selling pays in exactly the earnings, with or without upgrades: money
/// and the day's sales both rise by them, reputation rises by one, the bag
/// bonus and one more with a tasting room; the roasted stock is sold.
pub proof fn lemma_sales_pay_in_full(v: EstateView, r: FieldReading, s: crate::ledger::Sale)
    requires
        !v.inspection,
        v.day_report is None,
        v.game_result is None,
        r.sale == Some(s),
    ensures
        ({
            let (w, c) = act_rule(v, Action::SellCoffee, r);
            &&& w.money == v.money + s.earned
            &&& w.daily_sales == v.daily_sales + s.earned
            &&& w.money - v.money == w.daily_sales - v.daily_sales
            &&& w.reputation == v.reputation + 1 + s.bag_bonus + if v.tasting_room { 1int } else { 0 }
            &&& c.effect.stock == crate::effect::StockMove::Sell
            &&& c.routine
        }),
{
    reveal(sold_rule);
}

/// A welfare inspection met head on (answer B) goes by the civets' mood:
/// content civets (happiness at least 60) earn 4 reputation and calm 7 points
/// of suspicion; unhappy ones cost 4 reputation and add 10. The letter is
/// answered and no money moves.
pub proof fn lemma_welfare_inspection_follows_the_mood(v: EstateView, r: FieldReading)
    requires
        v.event matches Some(e) && e.kind == crate::estate::RandomEventKind::WelfareInspection,
    ensures
        ({
            let (w, c) = act_rule(v, Action::EventOptionB, r);
            &&& w.event is None
            &&& w.money == v.money
            &&& w.reputation == v.reputation + if r.content { 4int } else { -4 }
            &&& c.effect.suspicion == if r.content { -700int } else { 1000 }
        }),
{
    reveal(crate::events::ruling_for);
}

/// The civets' mood decides only the welfare inspection met head on: every
/// other answer to every other letter comes out the same either way.
pub proof fn lemma_mood_matters_only_to_welfare(v: EstateView, o: EventOption)
    requires
        v.event matches Some(e) && !(e.kind == crate::estate::RandomEventKind::WelfareInspection && o
            == EventOption::B),
    ensures
        resolve_event_rule(v, o, true) == resolve_event_rule(v, o, false),
{
    reveal(crate::events::ruling_for);
}

/// Delivering a covered order pays its payout into money and the day's
/// sales, grants its reputation reward (one more with a tasting room),
/// closes it, and ships its bags.
pub proof fn lemma_delivery_pays_and_rewards(v: EstateView, r: FieldReading)
    requires
        !v.inspection,
        v.day_report is None,
        v.game_result is None,
        v.active_order is Some,
        r.order_covered,
    ensures
        ({
            let o = v.active_order->0;
            let (w, c) = act_rule(v, Action::DeliverOrder, r);
            &&& w.money == v.money + o.payout
            &&& w.daily_sales == v.daily_sales + o.payout
            &&& w.reputation == v.reputation + o.reputation_reward + if v.tasting_room { 1int } else { 0 }
            &&& w.active_order is None
            &&& c.effect.stock == crate::effect::StockMove::Deliver { bags: o.bags, legal_office: v.legal_office }
        }),
{
}

/// Each of the three answers to Operation Bitter Bean ends it: showing the
/// paperwork costs $18, earns 3 reputation and calms 46 points plus 5 per
/// paperwork level; a tasting with four roasted bags costs $8 and earns 6,
/// without them it costs 2; blaming the goat costs 4 and sends it away.
pub proof fn lemma_answers_end_the_inspection(v: EstateView, a: Action, r: FieldReading)
    requires
        v.inspection,
        v.day_report is None,
        v.game_result is None,
        a == Action::InspectPaperwork || a == Action::InspectTasting || a == Action::InspectGoat,
        0 <= v.paperwork_level <= u32::MAX,
    ensures
        !act_rule(v, a, r).0.inspection,
        !act_rule(v, a, r).1.routine,
        a == Action::InspectPaperwork ==> act_rule(v, a, r).0.money == v.money - 18
            && act_rule(v, a, r).0.reputation == v.reputation + 3
            && act_rule(v, a, r).1.effect.suspicion == -(4600 + 500 * v.paperwork_level),
        a == Action::InspectTasting && r.tasting_stock ==> act_rule(v, a, r).0.money == v.money - 8
            && act_rule(v, a, r).0.reputation == v.reputation + 6,
        a == Action::InspectTasting && !r.tasting_stock ==> act_rule(v, a, r).0.money == v.money
            && act_rule(v, a, r).0.reputation == v.reputation - 2,
        a == Action::InspectGoat ==> act_rule(v, a, r).0.reputation == v.reputation - 4
            && !act_rule(v, a, r).0.goat_present,
{
    reveal(read_paperwork_rule);
    reveal(tasting_passed_rule);
    reveal(tasting_spoons_rule);
    reveal(goat_rule);
    reveal(logged);
}

/// Routine purchases at their prices: a shrub is $14 and adds a plant; the
/// enclosure costs $45 plus $20 per level and raises the level; the paperwork
/// annex costs $16 plus $3 per level ($8 plus $2 with a legal office) and
/// raises the level. Enclosure and paperwork costs are booked as the day's
/// expenses; without the money nothing is bought.
pub proof fn lemma_purchases_at_their_prices(v: EstateView, r: FieldReading)
    requires
        !v.inspection,
        v.day_report is None,
        v.game_result is None,
        0 <= v.enclosure_level <= i32::MAX,
        0 <= v.paperwork_level <= i32::MAX,
    ensures
        ({
            let w = act_rule(v, Action::PlantCoffee, r).0;
            &&& v.money >= 14 ==> w.money == v.money - 14 && w.coffee_plants == v.coffee_plants + 1
            &&& v.money < 14 ==> w.money == v.money && w.coffee_plants == v.coffee_plants
        }),
        ({
            let w = act_rule(v, Action::ImproveEnclosure, r).0;
            let cost = 45 + 20 * v.enclosure_level;
            &&& v.money >= cost ==> w.money == v.money - cost && w.enclosure_level == v.enclosure_level + 1
                && w.daily_expenses == v.daily_expenses + cost && w.reputation == v.reputation + 2
            &&& v.money < cost ==> w.money == v.money && w.enclosure_level == v.enclosure_level
        }),
        ({
            let w = act_rule(v, Action::ShowPaperwork, r).0;
            let cost = if v.legal_office { 8 + 2 * v.paperwork_level } else { 16 + 3 * v.paperwork_level };
            &&& v.money >= cost ==> w.money == v.money - cost && w.paperwork_level == v.paperwork_level + 1
                && w.daily_expenses == v.daily_expenses + cost && w.reputation == v.reputation + 1
            &&& v.money < cost ==> w.money == v.money && w.paperwork_level == v.paperwork_level
        }),
{
    reveal(logged);
    reveal(planted_rule);
    reveal(enclosed_rule);
    reveal(paperwork_shown_rule);
}

/// Roasting a batch costs $2, or $1 with a roasting shed; with no beans it
/// costs nothing.
pub proof fn lemma_roasting_costs(v: EstateView, r: FieldReading)
    requires
        !v.inspection,
        v.day_report is None,
        v.game_result is None,
    ensures
        act_rule(v, Action::RoastCoffee, r).0.money == v.money - if !r.beans_for_batch {
            0int
        } else if v.roasting_shed {
            1
        } else {
            2
        },
{
    reveal(roasted_rule);
}

/// Accepting an offer makes it the active order; declining it costs a point
/// of reputation. Either way the offer is gone.
pub proof fn lemma_offers_are_answered(v: EstateView, r: FieldReading)
    requires
        v.pending_order is Some,
    ensures
        act_rule(v, Action::AcceptOrder, r).0.active_order == v.pending_order,
        act_rule(v, Action::AcceptOrder, r).0.reputation == v.reputation,
        act_rule(v, Action::DeclineOrder, r).0.reputation == v.reputation - 1,
        act_rule(v, Action::DeclineOrder, r).0.active_order == v.active_order,
        act_rule(v, Action::AcceptOrder, r).1.effect.suspicion == 150,
        act_rule(v, Action::DeclineOrder, r).1.effect.suspicion == -150,
{
}

/// No answer to a letter brings money in: money only stays or falls.
pub proof fn lemma_letters_never_pay(v: EstateView, o: EventOption, content: bool)
    ensures
        resolve_event_rule(v, o, content).0.money <= v.money,
{
    reveal(crate::events::ruling_for);
}

/// The morale check costs a point of reputation and adds two of suspicion
/// exactly when the civets are unhappy.
pub proof fn lemma_morale_check(v: EstateView, unhappy: bool)
    ensures
        crate::play::morale_rule(v, unhappy).0.reputation == v.reputation - if unhappy { 1int } else { 0 },
        crate::play::morale_rule(v, unhappy).1.suspicion == if unhappy { 200int } else { 0 },
{
}

/// The day's verdict when no letter or order falls due: strong sales (120
/// or more) earn 2 reputation and draw 3.5 suspicion, no sales cost 1 and
/// draw 1; cheerful civets earn 2 and calm 3, miserable ones cost 3 and draw
/// 8; high suspicion costs 1; paperwork up to date calms 2.5; a legal office
/// calms 2; a tasting room with sales earns 1.
pub proof fn lemma_day_verdict(v: EstateView, r: crate::day::DayReading)
    requires
        !(r.cheerful && r.miserable),
        v.active_order matches Some(o) ==> o.due_day > v.day,
        v.pending_order matches Some(o) ==> o.due_day > v.day,
        v.event matches Some(e) ==> e.due_day > v.day,
    ensures
        ({
            let (w, t, e) = crate::day::close_books_rule(v, r);
            let sales = v.daily_sales;
            let rep = (if sales >= 120 { 2int } else if sales <= 0 { -1int } else { 0 })
                + (if r.cheerful { 2int } else if r.miserable { -3int } else { 0 })
                + (if r.hot { -1int } else { 0 })
                + (if v.tasting_room && sales > 0 { 1int } else { 0 });
            let sus = (if sales >= 120 { 350int } else if sales <= 0 { 100int } else { 0 })
                + (if r.cheerful { -300int } else if r.miserable { 800int } else { 0 })
                + (if v.paperwork_level >= v.day { -250int } else { 0 })
                + (if v.legal_office { -200int } else { 0 });
            &&& w.reputation == v.reputation + rep
            &&& t.reputation_delta == rep
            &&& t.suspicion_delta == sus
            &&& e.suspicion == sus
            &&& e.happiness == 0
        }),
{
}

} // verus!
