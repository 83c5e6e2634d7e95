use euther_civet::chores::{Action, FieldReading};
use euther_civet::day::{DayReading, ReportReading};
use euther_civet::effect::StockMove;
use euther_civet::estate::{Estate, GameResult, GameScreen, OrderOffer, ToolGroup};
use euther_civet::localization::PlantationRoom;
use euther_civet::orders::OrderQuotes;
use euther_civet::panel::{
    care_buttons, inspection_buttons, letter_heading, offer_buttons, offer_letter, screen_buttons,
    group_button_label, is_active_group_action, room_button_label, tenths_text, upkeep_memo, upgrade_button,
    verdict_heading, DayModalKind, LabelFigures,
};
use euther_civet::scene::{building_sign, civet_grid, grid_cells, room_heading, room_hint, shrub_grid};
use euther_civet::work::Upgrade;

fn reading() -> FieldReading {
    FieldReading {
        tasting_stock: false,
        fruit_on_hand: false,
        fruit_for_tray: false,
        fruit_in_sack: false,
        beans_for_batch: false,
        sale: None,
        order_covered: false,
        near_civets: false,
        content: false,
    }
}

fn figures() -> LabelFigures {
    LabelFigures { harvest: 10, fruit: 7, beans_tenths: 35 }
}

fn playing() -> Estate {
    let mut e = Estate::new();
    e.run_action(Action::StartGame, reading());
    e
}

fn calm() -> DayReading {
    DayReading { cheerful: false, miserable: false, hot: false }
}

fn quiet_report() -> ReportReading {
    ReportReading { alarmed: false, low_morale: false, trusted: true }
}

#[test]
fn button_labels() {
    let e = playing();
    assert_eq!(e.action_label(Action::PlantCoffee, figures()), "Plant coffee ($14)");
    assert_eq!(e.action_label(Action::HarvestFruit, figures()), "Harvest fruit (+10)");
    assert_eq!(e.action_label(Action::RoastCoffee, figures()), "Roast coffee (82% yield)");
    assert_eq!(e.action_label(Action::SellCoffee, figures()), "Sell coffee ");
    assert_eq!(e.action_label(Action::ToggleInventory, figures()), "Inventory sack (7 fruit, 3.5 beans)");
    assert_eq!(e.action_label(Action::GiveFruitFromInventory, figures()), "Give fruit (7)");
    assert_eq!(e.action_label(Action::ImproveEnclosure, figures()), "Improve enclosure ($65)");
    assert_eq!(e.action_label(Action::ShowPaperwork, figures()), "Show paperwork ($19)");
    assert_eq!(e.action_label(Action::BuildTastingRoom, figures()), "Tasting room ($140)");
    assert_eq!(e.action_label(Action::GoCoffeeField, figures()), "Coffee Field *");
    assert_eq!(e.action_label(Action::GoRoastery, figures()), "Roastery");
    assert_eq!(e.action_label(Action::ShowFieldTools, figures()), "v Field");
    assert_eq!(e.action_label(Action::ShowCareTools, figures()), "> Care");
    assert_eq!(e.action_label(Action::ContinueDay, figures()), "Action");
}

#[test]
fn labels_follow_the_upgrades() {
    let mut e = playing();
    e.roasting_shed = true;
    e.tasting_room = true;
    e.legal_office = true;
    e.inventory_open = true;
    assert_eq!(e.action_label(Action::RoastCoffee, figures()), "Roast coffee (96% yield)");
    assert_eq!(e.action_label(Action::SellCoffee, figures()), "Sell coffee + tasting");
    assert_eq!(e.action_label(Action::BuildTastingRoom, figures()), "Tasting room (built)");
    assert_eq!(e.action_label(Action::ShowPaperwork, figures()), "Show paperwork ($10)");
    assert_eq!(e.action_label(Action::ToggleInventory, figures()), "Close sack");
}

#[test]
fn label_pieces() {
    assert_eq!(upgrade_button("Caretaker", 85, false), "Caretaker ($85)");
    assert_eq!(upgrade_button("Caretaker", 85, true), "Caretaker (built)");
    assert_eq!(room_button_label(PlantationRoom::Sanctuary, PlantationRoom::Sanctuary), "Sanctuary *");
    assert_eq!(group_button_label(ToolGroup::System, ToolGroup::Care), "> System");
    assert!(is_active_group_action(Action::ShowSystemTools, ToolGroup::System));
    assert!(!is_active_group_action(Action::ShowSystemTools, ToolGroup::Care));
    assert!(!is_active_group_action(Action::PlantCoffee, ToolGroup::Field));
    assert_eq!(tenths_text(0), "0.0");
    assert_eq!(tenths_text(1234), "123.4");
}

#[test]
fn which_buttons_can_run() {
    let mut e = playing();
    assert!(e.can_run(Action::PlantCoffee, reading()));
    assert!(!e.can_run(Action::FeedCivets, reading()));
    assert!(e.can_run(Action::FeedCivets, FieldReading { fruit_on_hand: true, ..reading() }));
    assert!(!e.can_run(Action::DeliverOrder, FieldReading { order_covered: true, ..reading() }));
    assert!(!e.can_run(Action::PickUpBeansToInventory, reading()));
    assert!(!e.can_run(Action::PetSelectedCivet, reading()));
    assert!(!e.can_run(Action::InspectGoat, reading()));
    assert!(e.can_run(Action::BuildLegalOffice, reading()));
    e.legal_office = true;
    assert!(!e.can_run(Action::BuildLegalOffice, reading()));
    e.money = 10;
    assert!(!e.can_run(Action::PlantCoffee, reading()));
    assert!(!e.can_run(Action::ImproveEnclosure, reading()));
    e.screen = GameScreen::MainMenu;
    assert!(!e.can_run(Action::GoSanctuary, reading()));
}

#[test]
fn why_a_button_cannot_run() {
    let mut e = playing();
    assert_eq!(e.unavailable_reason(Action::DeliverOrder), "No active order to deliver.");
    assert_eq!(e.unavailable_reason(Action::FeedSelectedCivet), "Select a civet first.");
    e.selected_civet = Some(0);
    assert_eq!(e.unavailable_reason(Action::FeedSelectedCivet), "A personal fruit tray needs 2 coffee fruit.");
    assert_eq!(e.unavailable_reason(Action::HireCaretaker), "Upgrade is unavailable or already built.");
    assert_eq!(e.unavailable_reason(Action::StartGame), "That action is unavailable right now.");
}

#[test]
fn status_lines() {
    let mut e = playing();
    assert_eq!(e.upgrade_summary(), "none");
    e.caretaker = true;
    assert_eq!(e.upgrade_summary(), "caretaker");
    e.legal_office = true;
    e.tasting_room = true;
    assert_eq!(e.upgrade_summary(), "legal, caretaker, tasting");
    assert_eq!(e.mailbox_summary(), "Mail 0");
    assert_eq!(e.order_summary(), "Order none");
    assert_eq!(e.day_stat(), "Day 1/7");
    e.post_random_event();
    assert_eq!(e.mailbox_summary(), "Mail 1");
}

#[test]
fn overlays_follow_the_state() {
    let mut e = Estate::new();
    let o = e.overlays();
    assert!(o.screen);
    assert!(!o.animal);
    e.run_action(Action::StartGame, reading());
    e.selected_civet = Some(1);
    let o = e.overlays();
    assert!(!o.screen && o.animal && !o.inspection);
    assert_eq!(o.day, None);
    e.inspection = true;
    let o = e.overlays();
    assert!(o.inspection && !o.animal);
    e.game_result = Some(GameResult::Failed("x".to_string()));
    assert_eq!(e.overlays().day, Some(DayModalKind::FinalVerdict));
    assert_eq!(e.continue_label(), "View final verdict");
}

#[test]
fn letters_show_in_the_office() {
    let mut e = playing();
    e.post_random_event();
    assert!(!e.overlays().event);
    e.run_action(Action::GoPaperworkOffice, reading());
    assert!(e.overlays().event);
}

#[test]
fn day_modal_texts() {
    assert_eq!(upkeep_memo(45), "Upkeep charged: $45. Official memo: all beans remain legally beans.");
    assert_eq!(verdict_heading(&GameResult::Won(String::new())), "Weekly Ruling: Operationally Legitimate");
    assert_eq!(verdict_heading(&GameResult::Failed(String::new())), "Weekly Ruling: Board-Level Concern");
}

#[test]
fn closing_the_first_day() {
    let mut e = playing();
    assert_eq!(e.upkeep(), 45);
    let (tally, effect) = e.close_books(calm());
    assert_eq!((tally.day, tally.upkeep, tally.reputation_delta, tally.suspicion_delta), (1, 45, -1, -150));
    assert_eq!(effect.suspicion, -150);
    assert_eq!((e.money, e.reputation, e.daily_expenses), (115, 7, 45));
    e.file_report(tally, quiet_report());
    let report = e.day_report.as_ref().unwrap();
    assert_eq!(report.title, "Daily Report: Boring Coffee, Dramatic Shadows");
    assert_eq!(report.summary, "Sales $0. Operating costs $45. Reputation -1. Suspicion -1.5%.");
    assert_eq!(e.log.last().unwrap(), "End of day 1: sales $0, costs $45, reputation -1, suspicion -1.5%.");
    assert_eq!((e.day, e.daily_sales, e.daily_expenses), (2, 0, 0));
    assert!(e.game_result.is_none());
}

#[test]
fn the_last_day_ends_the_run() {
    let mut e = playing();
    e.day = 7;
    e.money = 1000;
    e.reputation = 30;
    e.daily_sales = 150;
    let (tally, _) = e.close_books(DayReading { cheerful: true, ..calm() });
    e.file_report(tally, quiet_report());
    assert_eq!(e.day, 7);
    match &e.game_result {
        Some(GameResult::Won(text)) => {
            assert_eq!(text, "Seven days survived: profitable, reputable, and only moderately surveilled.")
        },
        _ => panic!("the run should be won"),
    }
}

#[test]
fn debt_ends_the_run_early() {
    let mut e = playing();
    e.money = -40;
    let (tally, _) = e.close_books(calm());
    e.file_report(tally, quiet_report());
    match &e.game_result {
        Some(GameResult::Failed(text)) => {
            assert_eq!(text, "The plantation collapses under debt. The goat denies fiduciary responsibility.")
        },
        _ => panic!("the run should fail"),
    }
}

#[test]
fn offers_are_accepted_and_delivered() {
    let mut e = playing();
    let quotes = OrderQuotes { payouts: [100, 120, 140, 160, 180] };
    assert!(e.post_order_offer(quotes));
    let offer_bags = e.pending_order.as_ref().unwrap().bags;
    assert!((3..=7).contains(&offer_bags));
    assert_eq!(e.pending_order.as_ref().unwrap().due_day, 4);
    assert_eq!(e.order_summary(), "Order offer");
    let c = e.run_action(Action::AcceptOrder, reading());
    assert_eq!(c.effect.suspicion, 150);
    assert!(e.pending_order.is_none());
    let order = e.active_order.as_ref().unwrap();
    let (bags, payout) = (order.bags, order.payout);
    assert_eq!(payout, quotes.payouts[(bags - 3) as usize]);
    assert_eq!(e.order_summary(), format!("Order {bags}.0 by d4"));
    let c = e.run_action(Action::DeliverOrder, reading());
    assert_eq!(c.effect.stock, StockMove::OrderShortfall(bags));
    let c = e.run_action(Action::DeliverOrder, FieldReading { order_covered: true, ..reading() });
    assert_eq!(c.effect.stock, StockMove::Deliver { bags, legal_office: false });
    assert_eq!(e.money, 160 + payout);
    assert_eq!(e.daily_sales, payout);
    assert!(e.active_order.is_none());
}

#[test]
fn declining_an_offer_costs_reputation() {
    let mut e = playing();
    e.run_action(Action::DeclineOrder, reading());
    assert_eq!(e.log.last().unwrap(), "No premium order is waiting.");
    assert_eq!(e.reputation, 8);
    e.post_order_offer(OrderQuotes { payouts: [1, 2, 3, 4, 5] });
    let c = e.run_action(Action::DeclineOrder, reading());
    assert_eq!(e.reputation, 7);
    assert_eq!(c.effect.suspicion, -150);
    assert!(e.pending_order.is_none());
}

#[test]
fn the_scene_layout() {
    assert_eq!(room_heading(PlantationRoom::Roastery).0, "ROASTERY");
    assert_eq!(room_hint(PlantationRoom::CoffeeField), "Best buttons here: Plant coffee, Harvest fruit, Feed civets.");
    let cells = grid_cells(14, 36, 12);
    assert_eq!(cells.len(), 14);
    assert_eq!(cells[11], (11, 0));
    assert_eq!(cells[13], (1, 1));
    assert_eq!(grid_cells(50, 36, 12).len(), 36);
    assert_eq!(grid_cells(12, 10, 5)[7], (2, 1));
    assert_eq!(building_sign(Upgrade::FruitSorter), "SORT");
}

#[test]
fn buildings_stand_in_order() {
    let mut e = playing();
    assert!(e.buildings().is_empty());
    e.tasting_room = true;
    e.caretaker = true;
    assert_eq!(e.buildings(), vec![Upgrade::Caretaker, Upgrade::TastingRoom]);
}

#[test]
fn clicks_on_the_scene_count_only_in_play() {
    let mut e = playing();
    assert!(e.click_civet(2).is_some());
    assert_eq!(e.selected_civet, Some(2));
    e.post_random_event();
    assert!(e.click_civet(0).is_none());
    assert_eq!(e.selected_civet, Some(2));
    assert!(e.click_scene(Action::PlantCoffee, reading()).is_none());
    assert_eq!(e.coffee_plants, 6);
}

#[test]
fn overlay_buttons() {
    let menu = screen_buttons(GameScreen::MainMenu);
    assert_eq!(menu[0], (Action::StartGame, "Start plantation"));
    assert_eq!(menu[1], (Action::ShowIntro, "What is this company?"));
    assert_eq!(screen_buttons(GameScreen::AnimalBook)[1], (Action::ShowIntro, "Company mission"));
    assert!(screen_buttons(GameScreen::Playing).is_empty());
    assert_eq!(inspection_buttons()[2], (Action::InspectGoat, "Blame the goat"));
    assert_eq!(care_buttons().len(), 7);
    assert_eq!(care_buttons()[6], (Action::CloseAnimalPanel, "Close"));
    assert_eq!(offer_buttons()[1], (Action::DeclineOrder, "Decline politely"));
}

#[test]
fn letters_and_offers_in_writing() {
    assert_eq!(letter_heading("Unscheduled Goat"), "Mailbox: Unscheduled Goat");
    let offer = OrderOffer {
        client: "Ministry of Agricultural Irony".to_string(),
        bags: 4,
        payout: 118,
        reputation_reward: 3,
        due_day: 5,
    };
    assert_eq!(
        offer_letter(&offer, 47),
        "Ministry of Agricultural Irony wants 4.0 roasted bags by day 5. Payout $118, reputation +3, suspicion +4.7%.\nThe letter waits in the mailbox until its due day."
    );
}

#[test]
fn the_scene_grids_and_redraws() {
    assert_eq!(shrub_grid(40).len(), 36);
    assert_eq!(shrub_grid(13)[12], (0, 1));
    assert_eq!(civet_grid(3), vec![(0, 0), (1, 0), (2, 0)]);
    assert_eq!(civet_grid(11).len(), 10);
    let mut e = playing();
    assert!(e.take_dirty_visuals());
    assert!(!e.take_dirty_visuals());
    e.run_action(Action::GoSanctuary, reading());
    assert!(e.take_dirty_visuals());
}
