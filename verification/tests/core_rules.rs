use euther_civet::action::{available_actions, EutherCivetAction};
use euther_civet::effect::{Effect, StockMove};
use euther_civet::ledger::{next_frame, status_label, Ledger, Reading, Sale, EVENT_INTERVAL_TICKS};
use euther_civet::localization::{language_text, room_label, room_name, room_name_definite, world_label_in, Language, PlantationRoom};
use euther_civet::rng::{advance, rand_index, DEFAULT_SEED};

fn idle() -> Reading {
    Reading { tasting_stock: false, fruit_on_hand: false, beans_for_batch: false, sale: None }
}

#[test]
fn action_updates_snapshot() {
    let mut ledger = Ledger::new();
    let plants_before = ledger.coffee_plants;
    let money_before = ledger.money;
    let outcome = ledger.run_action(EutherCivetAction::PlantCoffee, idle());
    assert!(outcome.routine);
    assert_eq!(ledger.coffee_plants, plants_before + 1);
    assert!(ledger.money < money_before);
    assert!(available_actions(ledger.inspection).contains(&EutherCivetAction::SellCoffee));
}

#[test]
fn tick_advances_frame() {
    assert_eq!(next_frame(0), (1, false));
    assert_eq!(next_frame(8), (9, true));
    assert_eq!(next_frame(9), (10, false));
}

#[test]
fn events_come_every_ninth_tick() {
    let mut frame = 0u64;
    let mut fired = Vec::new();
    for _ in 0..30 {
        let (next, event) = next_frame(frame);
        frame = next;
        if event {
            fired.push(frame);
        }
    }
    assert_eq!(fired, vec![9, 18, 27]);
    assert_eq!(EVENT_INTERVAL_TICKS, 9);
}

#[test]
fn inspection_actions_are_the_three_answers() {
    assert!(EutherCivetAction::InspectPaperwork.is_inspection_action());
    assert!(EutherCivetAction::InspectTasting.is_inspection_action());
    assert!(EutherCivetAction::InspectGoat.is_inspection_action());
    assert!(!EutherCivetAction::PlantCoffee.is_inspection_action());
    assert!(!EutherCivetAction::ShowPaperwork.is_inspection_action());
}

#[test]
fn offered_actions_follow_the_inspection() {
    assert_eq!(
        available_actions(true),
        vec![EutherCivetAction::InspectPaperwork, EutherCivetAction::InspectTasting, EutherCivetAction::InspectGoat]
    );
    let normal = available_actions(false);
    assert_eq!(normal.len(), 8);
    assert_eq!(normal[0], EutherCivetAction::PlantCoffee);
    assert_eq!(normal[7], EutherCivetAction::ShowPaperwork);
    assert!(!normal.contains(&EutherCivetAction::InspectGoat));
}

#[test]
fn new_ledger_opens_the_plantation() {
    let ledger = Ledger::new();
    assert_eq!(ledger.coffee_plants, 6);
    assert_eq!(ledger.civets, 3);
    assert_eq!(ledger.money, 160);
    assert_eq!(ledger.reputation, 8);
    assert_eq!(ledger.rng_seed, DEFAULT_SEED);
    assert_eq!(ledger.log.len(), 2);
    assert!(!ledger.inspection);
}

#[test]
fn planting_costs_fourteen_and_crowding_draws_suspicion() {
    let mut ledger = Ledger::new();
    let outcome = ledger.run_action(EutherCivetAction::PlantCoffee, idle());
    assert_eq!(ledger.money, 146);
    assert_eq!(outcome.effect, Effect { suspicion: 120, happiness: 0, stock: StockMove::Still });
    ledger.coffee_plants = 18;
    let outcome = ledger.run_action(EutherCivetAction::PlantCoffee, idle());
    assert_eq!(ledger.coffee_plants, 19);
    assert_eq!(outcome.effect.suspicion, 350);
}

#[test]
fn planting_without_money_is_refused() {
    let mut ledger = Ledger::new();
    ledger.money = 13;
    ledger.run_action(EutherCivetAction::PlantCoffee, idle());
    assert_eq!(ledger.money, 13);
    assert_eq!(ledger.coffee_plants, 6);
    assert_eq!(ledger.log.last().unwrap(), "Not enough money for another coffee plant.");
}

#[test]
fn enclosure_and_paperwork_prices() {
    let mut ledger = Ledger::new();
    ledger.run_action(EutherCivetAction::ImproveEnclosure, idle());
    assert_eq!(ledger.money, 160 - 65);
    assert_eq!(ledger.enclosure_level, 2);
    assert_eq!(ledger.reputation, 10);
    let outcome = ledger.run_action(EutherCivetAction::ShowPaperwork, idle());
    assert_eq!(ledger.money, 95 - 19);
    assert_eq!(ledger.paperwork_level, 2);
    assert_eq!(outcome.effect.suspicion, -2000);
    ledger.money = 10;
    ledger.run_action(EutherCivetAction::ImproveEnclosure, idle());
    assert_eq!(ledger.log.last().unwrap(), "Enclosure upgrade needs $85.");
}

#[test]
fn selling_books_the_earnings() {
    let mut ledger = Ledger::new();
    let sale = Sale { earned: 150, bag_bonus: 1, large: true };
    let reading = Reading { sale: Some(sale), ..idle() };
    let outcome = ledger.run_action(EutherCivetAction::SellCoffee, reading);
    assert_eq!(ledger.money, 310);
    assert_eq!(ledger.reputation, 10);
    assert_eq!(outcome.effect, Effect { suspicion: 400, happiness: 0, stock: StockMove::Sell });
}

#[test]
fn work_is_paused_during_an_inspection() {
    let mut ledger = Ledger::new();
    ledger.inspection = true;
    let outcome = ledger.run_action(EutherCivetAction::PlantCoffee, idle());
    assert!(!outcome.routine);
    assert_eq!(ledger.coffee_plants, 6);
    assert_eq!(ledger.log.last().unwrap(), "Normal work is paused during Operation Bitter Bean.");
    let outcome = ledger.run_action(EutherCivetAction::InspectPaperwork, idle());
    assert!(!ledger.inspection);
    assert_eq!(ledger.money, 142);
    assert_eq!(ledger.reputation, 11);
    assert_eq!(outcome.effect.suspicion, -5100);
}

#[test]
fn the_goat_takes_the_blame() {
    let mut ledger = Ledger::new();
    ledger.inspection = true;
    let outcome = ledger.run_action(EutherCivetAction::InspectGoat, idle());
    assert!(!ledger.goat_present);
    assert!(!ledger.inspection);
    assert_eq!(ledger.reputation, 4);
    assert_eq!(outcome.effect, Effect { suspicion: -2400, happiness: -600, stock: StockMove::Still });
}

#[test]
fn unhappy_civets_cost_reputation() {
    let mut ledger = Ledger::new();
    let e = ledger.morale_check(true);
    assert_eq!(ledger.reputation, 7);
    assert_eq!(e.suspicion, 200);
    let e = ledger.morale_check(false);
    assert_eq!(ledger.reputation, 7);
    assert_eq!(e.suspicion, 0);
}

#[test]
fn full_suspicion_starts_the_inspection() {
    let mut ledger = Ledger::new();
    ledger.settle(false);
    assert!(!ledger.inspection);
    ledger.settle(true);
    assert!(ledger.inspection);
    assert_eq!(ledger.log.last().unwrap(), "Operation Bitter Bean begins.");
}

#[test]
fn the_log_keeps_the_newest_eight_lines() {
    let mut ledger = Ledger::new();
    for i in 0..12 {
        ledger.log_line(format!("line {i}"));
    }
    assert_eq!(ledger.log.len(), 8);
    assert_eq!(ledger.log[0], "line 4");
    assert_eq!(ledger.log[7], "line 11");
}

#[test]
fn random_source_is_the_seeded_lcg() {
    let expected = DEFAULT_SEED.wrapping_mul(6364136223846793005).wrapping_add(1442695040888963407);
    assert_eq!(advance(DEFAULT_SEED), expected);
    let mut seed = DEFAULT_SEED;
    let index = rand_index(&mut seed, 7);
    assert_eq!(seed, expected);
    assert_eq!(index, ((expected >> 32) as usize) % 7);
}

#[test]
fn random_events_respect_the_inspection() {
    let mut ledger = Ledger::new();
    ledger.inspection = true;
    let seed = ledger.rng_seed;
    let e = ledger.random_event(true);
    assert_eq!(ledger.rng_seed, seed);
    assert_eq!(e.suspicion, 0);
}

#[test]
fn status_names_the_pressure() {
    assert_eq!(status_label(true, true, true), "inspection");
    assert_eq!(status_label(false, true, true), "distressed");
    assert_eq!(status_label(false, false, true), "watched");
    assert_eq!(status_label(false, false, false), "running");
}

#[test]
fn tick_pressure_from_crowding_and_bad_name() {
    let mut ledger = Ledger::new();
    let (crowded, bad) = ledger.tick_pressure();
    assert_eq!((crowded.suspicion, bad.suspicion), (0, 0));
    ledger.coffee_plants = 25;
    ledger.reputation = -1;
    let (crowded, bad) = ledger.tick_pressure();
    assert_eq!((crowded.suspicion, bad.suspicion), (25, 20));
}

#[test]
fn words_in_both_languages() {
    assert_eq!(language_text(Language::English, "yes", "ja"), "yes");
    assert_eq!(language_text(Language::Swedish, "yes", "ja"), "ja");
    assert_eq!(room_name(PlantationRoom::Sanctuary, Language::Swedish), "Fristad");
    assert_eq!(room_name(PlantationRoom::CoffeeField, Language::English), "Coffee Field");
    assert_eq!(room_name_definite(PlantationRoom::Roastery, Language::Swedish), "Rosteriet");
    assert_eq!(room_name_definite(PlantationRoom::PaperworkOffice, Language::English), "Paperwork Office");
    assert_eq!(room_label(PlantationRoom::CoffeeField, Language::Swedish), "Kaffefältet");
    assert_eq!(world_label_in(Language::Swedish, "owner"), "plantageägare");
    assert_eq!(world_label_in(Language::English, "owner"), "plantation owner");
    assert_eq!(world_label_in(Language::English, "banana"), "banana");
}
