use euther_civet::chores::{Action, CivetCare, Command, FieldReading};
use euther_civet::effect::{Effect, StockMove};
use euther_civet::estate::{DayReport, Estate, EventState, GameScreen, InventoryItem, RandomEventKind, RosterChange, ToolGroup};
use euther_civet::ledger::Sale;
use euther_civet::localization::{Language, PlantationRoom};

fn reading() -> FieldReading {
    FieldReading {
        tasting_stock: false,
        fruit_on_hand: false,
        fruit_for_tray: false,
        fruit_in_sack: false,
        beans_for_batch: false,
        sale: None,
        order_covered: false,
        near_civets: false,
        content: false,
    }
}

fn playing() -> Estate {
    let mut e = Estate::new();
    e.run_action(Action::StartGame, reading());
    e
}

fn last(e: &Estate) -> &str {
    e.log.last().unwrap().as_str()
}

#[test]
fn a_new_game_waits_on_the_menu() {
    let e = Estate::new();
    assert_eq!(e.screen, GameScreen::MainMenu);
    assert_eq!((e.day, e.money, e.reputation, e.coffee_plants, e.civets), (1, 160, 8, 6, 3));
    assert_eq!(e.civet_names, vec!["Miso".to_string(), "Kanel".to_string(), "Beanie".to_string()]);
    assert_eq!(e.inventory, vec![InventoryItem::TinyBrush, InventoryItem::RibbonCollar, InventoryItem::FruitPuzzle]);
    assert_eq!(e.current_room, PlantationRoom::CoffeeField);
    assert_eq!(e.active_tool_group, ToolGroup::Field);
    assert_eq!(e.log.len(), 2);
}

#[test]
fn starting_opens_the_plantation() {
    let mut e = Estate::new();
    let c = e.run_action(Action::StartGame, reading());
    assert_eq!(e.screen, GameScreen::Playing);
    assert_eq!(c.command, Command::Nothing);
    assert!(!c.routine);
    assert_eq!(last(&e), "The plantation opens for business. Everyone looks adorable and audited.");
}

#[test]
fn a_new_run_starts_over_in_the_same_language() {
    let mut e = playing();
    e.money = 5;
    e.legal_office = true;
    e.language = Language::Swedish;
    let c = e.run_action(Action::StartNewRun, reading());
    assert_eq!(c.command, Command::ResetStocks);
    assert_eq!(e.money, 160);
    assert!(!e.legal_office);
    assert_eq!(e.language, Language::Swedish);
    assert_eq!(e.screen, GameScreen::Playing);
    assert_eq!(last(&e), "Ny omgång startad. Pappersarbetet är tomt och redan dömande.");
}

#[test]
fn moving_between_rooms() {
    let mut e = playing();
    let c = e.run_action(Action::GoSanctuary, reading());
    assert_eq!(c.command, Command::PlacePlayer);
    assert_eq!(e.current_room, PlantationRoom::Sanctuary);
    assert_eq!(e.active_tool_group, ToolGroup::Care);
    assert_eq!(last(&e), "Moved to Sanctuary. Everything is still legal.");
    e.selected_civet = Some(1);
    e.language = Language::Swedish;
    e.run_action(Action::GoRoastery, reading());
    assert_eq!(e.selected_civet, None);
    assert_eq!(e.active_tool_group, ToolGroup::Production);
    assert_eq!(last(&e), "Flyttade till Rosteriet. Allt är fortfarande lagligt.");
}

#[test]
fn tool_groups_and_screens() {
    let mut e = playing();
    e.run_action(Action::ShowUpgradeTools, reading());
    assert_eq!(e.active_tool_group, ToolGroup::Upgrades);
    e.settings_open = true;
    e.run_action(Action::BackToMenu, reading());
    assert_eq!(e.screen, GameScreen::MainMenu);
    assert!(!e.settings_open);
    e.run_action(Action::ShowAnimalBook, reading());
    assert_eq!(e.screen, GameScreen::AnimalBook);
}

#[test]
fn the_sack_and_the_settings() {
    let mut e = playing();
    e.run_action(Action::ToggleInventory, reading());
    assert!(e.inventory_open);
    assert_eq!(last(&e), "Inventory sack opens into a bottom tray.");
    e.run_action(Action::ToggleInventory, reading());
    assert!(!e.inventory_open);
    assert_eq!(last(&e), "Inventory tray folds back into a coffee sack.");
    e.run_action(Action::ShowSettings, reading());
    assert!(e.settings_open);
    e.run_action(Action::SetLanguageSwedish, reading());
    assert_eq!(e.language, Language::Swedish);
    assert!(!e.settings_open);
    assert_eq!(last(&e), "Språk satt till svenska.");
}

#[test]
fn host_work_is_handed_back() {
    let mut e = playing();
    let before = e.log.clone();
    assert_eq!(e.run_action(Action::Save, reading()).command, Command::Save);
    assert_eq!(e.run_action(Action::Load, reading()).command, Command::Load);
    assert_eq!(e.run_action(Action::CycleTimeScale, reading()).command, Command::CycleTimeScale);
    assert_eq!(e.log, before);
}

#[test]
fn a_waiting_report_blocks_the_work() {
    let mut e = playing();
    e.day_report = Some(DayReport {
        day: 1,
        title: "t".to_string(),
        summary: "s".to_string(),
        upkeep: 45,
        reputation_delta: 0,
        suspicion_delta: 0,
    });
    let c = e.run_action(Action::PlantCoffee, reading());
    assert_eq!(e.money, 160);
    assert!(!c.routine);
    assert_eq!(last(&e), "The day report is waiting for acknowledgement.");
    e.run_action(Action::ContinueDay, reading());
    assert!(e.day_report.is_none());
    assert_eq!(last(&e), "Day 1 begins. The ledgers look awake.");
}

#[test]
fn the_inspection_pauses_work_until_answered() {
    let mut e = playing();
    e.inspection = true;
    let c = e.run_action(Action::HarvestFruit, reading());
    assert!(c.clamp && !c.routine);
    assert_eq!(c.effect, Effect { suspicion: 0, happiness: 0, stock: StockMove::Still });
    assert_eq!(last(&e), "Normal work is paused during Operation Bitter Bean.");
    let c = e.run_action(Action::InspectTasting, FieldReading { tasting_stock: true, ..reading() });
    assert!(!e.inspection);
    assert_eq!((e.money, e.reputation), (152, 14));
    assert_eq!(c.effect, Effect { suspicion: -3400, happiness: 0, stock: StockMove::TakeRoasted(4) });
}

#[test]
fn field_work_effects() {
    let mut e = playing();
    let c = e.run_action(Action::HarvestFruit, reading());
    assert!(c.routine);
    assert_eq!(c.effect, Effect { suspicion: 0, happiness: -80, stock: StockMove::Harvest });
    let c = e.run_action(Action::FeedCivets, reading());
    assert_eq!(c.effect, Effect { suspicion: 300, happiness: -500, stock: StockMove::Still });
    assert_eq!(last(&e), "No fruit to feed the civets. They file a silent complaint.");
    let c = e.run_action(Action::FeedCivets, FieldReading { fruit_on_hand: true, ..reading() });
    assert_eq!(c.effect, Effect { suspicion: -100, happiness: 0, stock: StockMove::Feed { sorter: false } });
    let c = e.run_action(Action::RoastCoffee, FieldReading { beans_for_batch: true, ..reading() });
    assert_eq!(e.money, 158);
    assert_eq!(c.effect.stock, StockMove::Roast { shed: false });
    let sale = Sale { earned: 120, bag_bonus: 1, large: true };
    e.tasting_room = true;
    let c = e.run_action(Action::SellCoffee, FieldReading { sale: Some(sale), ..reading() });
    assert_eq!((e.money, e.daily_sales, e.reputation), (278, 120, 11));
    assert_eq!(c.effect.suspicion, 250);
}

#[test]
fn upgrades_are_bought_once() {
    let mut e = playing();
    e.run_action(Action::BuildLegalOffice, reading());
    assert!(e.legal_office);
    assert_eq!((e.money, e.daily_expenses, e.reputation), (50, 110, 9));
    assert_eq!(last(&e), "Built Legal Office. Suspicion now has to wait in reception.");
    e.run_action(Action::BuildLegalOffice, reading());
    assert_eq!(e.money, 50);
    assert_eq!(last(&e), "That upgrade is already in place.");
    e.run_action(Action::HireCaretaker, reading());
    assert!(!e.caretaker);
    assert_eq!(last(&e), "Upgrade needs $85.");
}

#[test]
fn enclosure_and_paperwork_in_the_office() {
    let mut e = playing();
    let c = e.run_action(Action::ImproveEnclosure, reading());
    assert_eq!((e.money, e.enclosure_level, e.daily_expenses), (95, 2, 65));
    assert_eq!(c.effect, Effect { suspicion: -800, happiness: 1800, stock: StockMove::Still });
    e.legal_office = true;
    let c = e.run_action(Action::ShowPaperwork, reading());
    assert_eq!((e.money, e.paperwork_level), (85, 2));
    assert_eq!(c.effect.suspicion, -2800);
    e.money = 3;
    e.run_action(Action::ImproveEnclosure, reading());
    assert_eq!(last(&e), "Enclosure upgrade needs $85.");
}

#[test]
fn caring_for_a_selected_civet() {
    let mut e = playing();
    e.run_action(Action::FeedSelectedCivet, reading());
    assert_eq!(last(&e), "Select a civet first.");
    let (change, found) = e.select_civet_by_index(1);
    assert!(found);
    assert_eq!(change, RosterChange { reset: false, added: 0 });
    let c = e.run_action(Action::FeedSelectedCivet, FieldReading { fruit_for_tray: true, ..reading() });
    assert_eq!(c.care, Some(CivetCare { civet: 1, hunger: -2800, mood: 800 }));
    assert_eq!(c.effect, Effect { suspicion: -80, happiness: 400, stock: StockMove::HandFeed { fruit: 2 } });
    assert_eq!(last(&e), "Kanel gets a hand-picked fruit tray and approves with grave professionalism.");
    let c = e.run_action(Action::PetSelectedCivet, reading());
    assert_eq!(e.reputation, 9);
    assert_eq!(c.care, Some(CivetCare { civet: 1, hunger: 100, mood: 1100 }));
    let c = e.run_action(Action::InspectSelectedCivet, reading());
    assert_eq!(c.effect.stock, StockMove::CivetNotes(1));
    assert!(!e.select_civet_by_index(9).1);
}

#[test]
fn fruit_from_the_sack_needs_the_sanctuary() {
    let mut e = playing();
    let ready = FieldReading { fruit_in_sack: true, near_civets: true, ..reading() };
    e.run_action(Action::GiveFruitFromInventory, ready);
    assert_eq!(last(&e), "Bring the coffee fruit to the Sanctuary first.");
    e.run_action(Action::GoSanctuary, reading());
    e.run_action(Action::GiveFruitFromInventory, FieldReading { near_civets: false, ..ready });
    assert_eq!(last(&e), "Walk closer to the civets before offering fruit.");
    let c = e.run_action(Action::GiveFruitFromInventory, ready);
    assert_eq!(e.selected_civet, Some(0));
    assert_eq!(c.care, Some(CivetCare { civet: 0, hunger: -1500, mood: 500 }));
    assert_eq!(last(&e), "Miso takes a coffee fruit from your inventory tray.");
    let c = e.run_action(Action::PickUpBeansToInventory, ready);
    assert_eq!(c.effect.stock, StockMove::PickUp);
}

#[test]
fn basket_items_must_be_in_the_basket() {
    let mut e = playing();
    e.select_civet_by_index(2);
    e.inventory = vec![InventoryItem::FruitPuzzle];
    e.run_action(Action::UseTinyBrush, reading());
    assert_eq!(last(&e), "That item is not in the sanctuary basket.");
    let c = e.run_action(Action::UseFruitPuzzle, reading());
    assert_eq!(c.care, Some(CivetCare { civet: 2, hunger: -400, mood: 800 }));
    assert_eq!(last(&e), "Beanie works on a fruit puzzle with tiny, serious paws.");
}

#[test]
fn the_roster_grows_with_the_civets() {
    let mut e = Estate::new();
    e.civets = 5;
    let change = e.ensure_civet_profiles();
    assert_eq!(change, RosterChange { reset: false, added: 2 });
    assert_eq!(e.civet_names[3], "Civet 4");
    assert_eq!(e.civet_names[4], "Civet 5");
    e.civet_names.clear();
    e.selected_civet = Some(7);
    let change = e.ensure_civet_profiles();
    assert_eq!(change, RosterChange { reset: true, added: 2 });
    assert_eq!(e.civet_names.len(), 5);
    assert_eq!(e.civet_names[0], "Miso");
    assert_eq!(e.selected_civet, None);
}

#[test]
fn checks_after_an_action() {
    let mut e = playing();
    let m = e.morale_check(true);
    assert_eq!((e.reputation, m.suspicion), (7, 200));
    let h = e.hunger_penalty(true);
    assert_eq!((e.reputation, h.suspicion), (6, 45));
    e.clamp(true);
    assert!(e.inspection);
    assert_eq!(last(&e), "Operation Bitter Bean begins.");
    e.coffee_plants = 30;
    let (crowded, bad) = e.tick_pressure();
    assert_eq!((crowded.suspicion, bad.suspicion), (25, 0));
}

#[test]
fn letters_arrive_and_are_answered() {
    let mut e = playing();
    e.run_action(Action::EventOptionA, reading());
    assert_eq!(last(&e), "No event is waiting for a decision.");
    assert!(e.post_random_event());
    assert!(e.event.is_some());
    assert_eq!(e.event.as_ref().unwrap().due_day, 3);
    assert!(!e.post_random_event());
    e.event = Some(EventState {
        kind: RandomEventKind::PoliceVisit,
        title: "Local Police Visit".to_string(),
        body: String::new(),
        due_day: 3,
    });
    let c = e.run_action(Action::EventOptionA, reading());
    assert!(e.event.is_none());
    assert_eq!((e.money, e.reputation), (146, 9));
    assert!(c.clamp && !c.routine);
    assert_eq!(c.effect.suspicion, -1450);
    assert_eq!(last(&e), "Police accept the paperwork and leave with a laminated bean diagram.");
}

#[test]
fn routine_work_runs_the_morale_check() {
    let mut e = playing();
    let c = e.run_action(Action::CollectBeans, reading());
    assert!(c.routine);
    assert_eq!(c.effect, Effect { suspicion: 70, happiness: 0, stock: StockMove::Collect });
    let c = e.run_action(Action::InspectGoat, reading());
    assert!(c.routine);
    assert_eq!(c.effect.suspicion, 0);
}

#[test]
fn the_log_and_selection_stay_in_shape() {
    let mut e = playing();
    let actions = [
        Action::GoSanctuary,
        Action::PlantCoffee,
        Action::ToggleInventory,
        Action::ShowSettings,
        Action::CloseSettings,
        Action::PetSelectedCivet,
        Action::HarvestFruit,
        Action::GoPaperworkOffice,
        Action::ShowPaperwork,
        Action::CloseAnimalPanel,
    ];
    e.select_civet_by_index(0);
    for a in actions {
        e.run_action(a, reading());
        assert!(e.log.len() <= 8);
        if let Some(i) = e.selected_civet {
            assert!(i < e.civet_names.len());
        }
    }
}

#[test]
fn purchases_never_overdraw() {
    let mut e = playing();
    e.money = 14;
    e.run_action(Action::PlantCoffee, reading());
    assert_eq!((e.money, e.coffee_plants), (0, 7));
    e.run_action(Action::PlantCoffee, reading());
    assert_eq!((e.money, e.coffee_plants), (0, 7));
    e.money = 110;
    e.run_action(Action::BuildLegalOffice, reading());
    assert_eq!(e.money, 0);
    assert!(e.legal_office);
    e.run_action(Action::ShowPaperwork, reading());
    assert_eq!(e.money, 0);
    assert_eq!(last(&e), "Not enough money to print the paperwork annex.");
}

#[test]
fn a_loaded_state_is_made_whole() {
    let mut e = playing();
    e.civet_names.clear();
    e.selected_civet = Some(4);
    e.dirty_visuals = false;
    let change = e.loaded();
    assert_eq!(change, RosterChange { reset: true, added: 0 });
    assert_eq!(e.civet_names.len(), 3);
    assert_eq!(e.selected_civet, None);
    assert!(e.dirty_visuals);
    assert_eq!(last(&e), "Loaded plantation ledger from disk.");
    e.saved(true);
    assert_eq!(last(&e), "Saved an alarmingly neat plantation ledger.");
    e.saved(false);
    assert_eq!(last(&e), "Save failed. The paperwork drawer jammed.");
}

#[test]
fn upgrades_survive_everything_but_a_new_run() {
    let mut e = playing();
    e.caretaker = true;
    e.fruit_sorter = true;
    for a in [Action::HarvestFruit, Action::GoRoastery, Action::ContinueDay, Action::ShowPaperwork, Action::Load] {
        e.run_action(a, reading());
        assert!(e.caretaker && e.fruit_sorter);
    }
    e.run_action(Action::StartNewRun, reading());
    assert!(!e.caretaker && !e.fruit_sorter);
}

#[test]
fn texts_in_the_estate_language() {
    let mut e = playing();
    assert_eq!(e.state_text("yes", "ja"), "yes");
    assert_eq!(e.world_label("witness"), "witness");
    e.language = Language::Swedish;
    assert_eq!(e.state_text("yes", "ja"), "ja");
    assert_eq!(e.world_label("witness"), "vittne");
    assert_eq!(e.world_label("unknown key"), "unknown key");
}
