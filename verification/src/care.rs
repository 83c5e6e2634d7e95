//! Civet care in the full game: the personal fruit tray, fruit from the
//! sack, picking up beans, petting, the care notes and the basket items.
use vstd::prelude::*;
use crate::chores::{
    chore, new_chore, say, Action, Chore, CivetCare, Command, FieldReading, BEANS_NEAR_EN, BEANS_NEAR_SV,
    EMPTY_SACK_EN, EMPTY_SACK_SV, NOT_IN_BASKET_EN, NOT_IN_BASKET_SV, NO_TRAY_EN, NO_TRAY_SV, SELECT_FIRST_EN,
    SELECT_FIRST_SV, TO_SANCTUARY_EN, TO_SANCTUARY_SV, WALK_CLOSER_EN, WALK_CLOSER_SV, WORK_AREA_EN, WORK_AREA_SV,
};
use crate::effect::{effect, fx, no_effect, Effect, StockMove};
use crate::estate::{roster_change, roster_ensured, Estate, EstateView, InventoryItem, RosterChange};
use crate::events::fits_i32;
use crate::journal::logged;
use crate::localization::{in_language, Language, PlantationRoom};

verus! {

/// A chore that also reports a change of the roster.
pub open spec fn with_roster(c: Chore, roster: RosterChange) -> Chore {
    Chore { roster, ..c }
}

/// A chore that also changes a civet's record.
pub open spec fn with_care(c: Chore, civet: usize, hunger: int, mood: int) -> Chore {
    Chore { care: Some(CivetCare { civet, hunger: hunger as i64, mood: mood as i64 }), ..c }
}

/// The estate with a line about a named civet logged.
pub open spec fn say_name(v: EstateView, i: usize, en: Seq<char>, sv: Seq<char>) -> EstateView {
    EstateView { log: logged(v.log, v.civet_names[i as int] + in_language(v.language, en, sv)), ..v }
}

pub const TRAY_EN: &'static str = " gets a hand-picked fruit tray and approves with grave professionalism.";
pub const TRAY_SV: &'static str = " får en handplockad fruktbricka och godkänner den med gravallvarlig professionalism.";
pub const SACK_FRUIT_EN: &'static str = " takes a coffee fruit from your inventory tray.";
pub const SACK_FRUIT_SV: &'static str = " tar en kaffefrukt från inventariebrickan.";
pub const PETTED_EN: &'static str = " receives sanctuary-grade attention. This is excellent press, if anyone asks.";
pub const PETTED_SV: &'static str = " får omsorg i fristadsklass. Det här är utmärkt PR, om någon frågar.";
pub const BRUSHED_EN: &'static str = " gets brushed. The fur situation becomes investor-ready.";
pub const BRUSHED_SV: &'static str = " blir borstad. Pälsläget blir investerarklart.";
pub const COLLAR_EN: &'static str = " tries a ribbon collar and looks extremely non-cartel.";
pub const COLLAR_SV: &'static str = " provar ett rosetthalsband och ser extremt icke-kartell ut.";
pub const PUZZLE_EN: &'static str = " works on a fruit puzzle with tiny, serious paws.";
pub const PUZZLE_SV: &'static str = " arbetar med ett fruktpussel med små, seriösa tassar.";

/// A personal fruit tray for the selected civet: two fruit become one
/// feed, its hunger falls by 28 and mood rises by 8, happiness rises by 4
/// and suspicion falls by 0.8.
#[verifier::opaque]
pub open spec fn tray_rule(w: EstateView, i: usize) -> (EstateView, Chore) {
    (
        say_name(EstateView { dirty_visuals: true, ..w }, i, TRAY_EN@, TRAY_SV@),
        with_care(chore(fx(-80, 400, StockMove::HandFeed { fruit: 2 }), true, true), i, -2800, 800),
    )
}

/// Feeding the selected civet (see `tray_rule`); without a selection it
/// asks for one, and without two fruit the civets are disappointed (1.2
/// suspicion, 2 happiness).
pub open spec fn feed_selected_rule(v: EstateView, r: FieldReading) -> (EstateView, Chore) {
    let w = roster_ensured(v);
    let ch = roster_change(v);
    match w.selected_civet {
        None => (say(w, SELECT_FIRST_EN@, SELECT_FIRST_SV@), with_roster(chore(no_effect(), false, true), ch)),
        Some(i) => if !r.fruit_for_tray {
            (say(w, NO_TRAY_EN@, NO_TRAY_SV@), with_roster(chore(fx(120, -200, StockMove::Still), true, true), ch))
        } else {
            let (x, c) = tray_rule(w, i);
            (x, with_roster(c, ch))
        },
    }
}

/// The civet that takes fruit from the sack: the selected one, or the
/// first, within the roster.
pub open spec fn sack_target(w: EstateView) -> usize {
    let wanted = match w.selected_civet {
        Some(i) => i as int,
        None => 0,
    };
    let last = if w.civet_names.len() == 0 { 0 } else { w.civet_names.len() - 1 };
    (if wanted <= last { wanted } else { last }) as usize
}

/// A coffee fruit from the sack: the civet is selected, one fruit becomes
/// feed, its hunger falls by 15 and mood rises by 5, happiness rises by 2
/// and suspicion falls by 0.3.
#[verifier::opaque]
pub open spec fn sack_fruit_rule(w: EstateView) -> (EstateView, Chore) {
    let i = sack_target(w);
    (
        say_name(EstateView { selected_civet: Some(i), dirty_visuals: true, ..w }, i, SACK_FRUIT_EN@, SACK_FRUIT_SV@),
        with_care(chore(fx(-30, 200, StockMove::HandFeed { fruit: 1 }), true, true), i, -1500, 500),
    )
}

/// Offering fruit from the sack: only in the sanctuary, with fruit, and
/// close to the civets.
pub open spec fn give_fruit_rule(v: EstateView, r: FieldReading) -> (EstateView, Chore) {
    if v.current_room != PlantationRoom::Sanctuary {
        (say(v, TO_SANCTUARY_EN@, TO_SANCTUARY_SV@), chore(no_effect(), false, true))
    } else if !r.fruit_in_sack {
        (say(v, EMPTY_SACK_EN@, EMPTY_SACK_SV@), chore(no_effect(), false, true))
    } else if !r.near_civets {
        (say(v, WALK_CLOSER_EN@, WALK_CLOSER_SV@), chore(no_effect(), false, true))
    } else {
        let (x, c) = sack_fruit_rule(roster_ensured(v));
        (x, with_roster(c, roster_change(v)))
    }
}

/// Picking up beans by hand: only in the sanctuary and close to the civets.
pub open spec fn pick_up_rule(v: EstateView, r: FieldReading) -> (EstateView, Chore) {
    if v.current_room != PlantationRoom::Sanctuary {
        (say(v, BEANS_NEAR_EN@, BEANS_NEAR_SV@), chore(no_effect(), false, true))
    } else if !r.near_civets {
        (say(v, WORK_AREA_EN@, WORK_AREA_SV@), chore(no_effect(), false, true))
    } else {
        (EstateView { dirty_visuals: true, ..v }, chore(fx(40, 0, StockMove::PickUp), true, true))
    }
}

/// Petting the selected civet: mood up 11, hunger up 1, happiness up 2.5,
/// a point of reputation, suspicion down 0.4.
#[verifier::opaque]
pub open spec fn pet_rule(w: EstateView, i: usize) -> (EstateView, Chore) {
    (
        say_name(EstateView { reputation: w.reputation + 1, dirty_visuals: true, ..w }, i, PETTED_EN@, PETTED_SV@),
        with_care(chore(fx(-40, 250, StockMove::Still), true, true), i, 100, 1100),
    )
}

/// The changes a basket item brings: (reputation, suspicion, happiness,
/// hunger, mood), the last four in hundredths.
pub open spec fn item_changes(item: InventoryItem) -> (int, int, int, int, int) {
    match item {
        InventoryItem::TinyBrush => (1, 0, 200, 50, 700),
        InventoryItem::RibbonCollar => (0, -70, 150, 0, 500),
        InventoryItem::FruitPuzzle => (0, -40, 250, -400, 800),
    }
}

pub open spec fn item_line(item: InventoryItem) -> (Seq<char>, Seq<char>) {
    match item {
        InventoryItem::TinyBrush => (BRUSHED_EN@, BRUSHED_SV@),
        InventoryItem::RibbonCollar => (COLLAR_EN@, COLLAR_SV@),
        InventoryItem::FruitPuzzle => (PUZZLE_EN@, PUZZLE_SV@),
    }
}

/// Using a basket item on the selected civet (see `item_changes`).
#[verifier::opaque]
pub open spec fn item_rule(w: EstateView, i: usize, item: InventoryItem) -> (EstateView, Chore) {
    let (rep, sus, happy, hunger, mood) = item_changes(item);
    (
        say_name(EstateView { reputation: w.reputation + rep, dirty_visuals: true, ..w }, i, item_line(item).0, item_line(item).1),
        with_care(chore(fx(sus, happy, StockMove::Still), true, true), i, hunger, mood),
    )
}

/// The basket item a use action names.
pub open spec fn item_of(a: Action) -> InventoryItem {
    match a {
        Action::UseRibbonCollar => InventoryItem::RibbonCollar,
        Action::UseFruitPuzzle => InventoryItem::FruitPuzzle,
        _ => InventoryItem::TinyBrush,
    }
}

/// Care for the selected civet: petting, the care notes, or a basket item
/// (which must be in the basket). Without a selection it asks for one.
pub open spec fn selected_care_rule(v: EstateView, a: Action) -> (EstateView, Chore) {
    let w = roster_ensured(v);
    let ch = roster_change(v);
    match w.selected_civet {
        None => (say(w, SELECT_FIRST_EN@, SELECT_FIRST_SV@), with_roster(chore(no_effect(), false, true), ch)),
        Some(i) => match a {
            Action::PetSelectedCivet => {
                let (x, c) = pet_rule(w, i);
                (x, with_roster(c, ch))
            },
            Action::InspectSelectedCivet => (w, with_roster(chore(fx(0, 0, StockMove::CivetNotes(i)), false, true), ch)),
            _ => if !w.inventory.contains(item_of(a)) {
                (say(w, NOT_IN_BASKET_EN@, NOT_IN_BASKET_SV@), with_roster(chore(no_effect(), false, true), ch))
            } else {
                let (x, c) = item_rule(w, i, item_of(a));
                (x, with_roster(c, ch))
            },
        },
    }
}

/// All civet care.
pub open spec fn care_rule(v: EstateView, a: Action, r: FieldReading) -> (EstateView, Chore) {
    match a {
        Action::FeedSelectedCivet => feed_selected_rule(v, r),
        Action::GiveFruitFromInventory => give_fruit_rule(v, r),
        Action::PickUpBeansToInventory => pick_up_rule(v, r),
        _ => selected_care_rule(v, a),
    }
}

/// Whether `care_rule` may add a point of reputation for this action.
pub open spec fn care_raises_reputation(a: Action) -> bool {
    match a {
        Action::FeedSelectedCivet
        | Action::GiveFruitFromInventory
        | Action::PickUpBeansToInventory
        | Action::InspectSelectedCivet
        | Action::UseRibbonCollar
        | Action::UseFruitPuzzle => false,
        _ => true,
    }
}

/// Whether `care_rule` stays inside the machine types.
pub open spec fn care_fits(v: EstateView, a: Action) -> bool {
    &&& v.civets < usize::MAX
    &&& care_raises_reputation(a) ==> fits_i32(v.reputation + 1)
}

fn item_of_action(a: Action) -> (item: InventoryItem)
    ensures
        item == item_of(a),
{
    match a {
        Action::UseRibbonCollar => InventoryItem::RibbonCollar,
        Action::UseFruitPuzzle => InventoryItem::FruitPuzzle,
        _ => InventoryItem::TinyBrush,
    }
}

fn care_chore(e: Effect, civet: usize, hunger: i64, mood: i64) -> (c: Chore)
    ensures
        c == with_care(chore(e, true, true), civet, hunger as int, mood as int),
{
    Chore {
        effect: e,
        care: Some(CivetCare { civet, hunger, mood }),
        roster: RosterChange { reset: false, added: 0 },
        command: Command::Nothing,
        clamp: true,
        routine: true,
    }
}

impl Estate {
    /// Logs `name + line` for civet `i`.
    fn say_name(&mut self, i: usize, en: &'static str, sv: &'static str)
        requires
            i < old(self).civet_names@.len(),
        ensures
            final(self)@ == say_name(old(self)@, i, en@, sv@),
    {
        proof {
            crate::journal::lemma_lines_index(self.civet_names@, i as int);
        }
        let mut line = self.civet_names[i].clone();
        line.append(crate::localization::language_text(self.language, en, sv));
        self.log_line(line);
    }

    /// Whether the basket holds an item.
    pub fn holds_item(&self, item: InventoryItem) -> (b: bool)
        ensures
            b == self@.inventory.contains(item),
    {
        let mut k: usize = 0;
        while k < self.inventory.len()
            invariant
                k <= self.inventory@.len(),
                forall|j: int| 0 <= j < k ==> self.inventory@[j] != item,
            decreases self.inventory@.len() - k,
        {
            if self.inventory[k] == item {
                return true;
            }
            k = k + 1;
        }
        false
    }

    fn tray(&mut self, i: usize) -> (c: Chore)
        requires
            i < old(self).civet_names@.len(),
        ensures
            (final(self)@, c) == tray_rule(old(self)@, i),
    {
        reveal(tray_rule);
        self.dirty_visuals = true;
        self.say_name(i, TRAY_EN, TRAY_SV);
        care_chore(effect(-80, 400, StockMove::HandFeed { fruit: 2 }), i, -2800, 800)
    }

    fn sack_fruit(&mut self) -> (c: Chore)
        requires
            old(self).civet_names@.len() > 0,
        ensures
            (final(self)@, c) == sack_fruit_rule(old(self)@),
    {
        reveal(sack_fruit_rule);
        proof {
            crate::journal::lemma_lines_len(self.civet_names@);
        }
        let wanted = match self.selected_civet {
            Some(i) => i,
            None => 0,
        };
        let last = self.civet_names.len() - 1;
        let i = if wanted <= last { wanted } else { last };
        self.selected_civet = Some(i);
        self.dirty_visuals = true;
        self.say_name(i, SACK_FRUIT_EN, SACK_FRUIT_SV);
        care_chore(effect(-30, 200, StockMove::HandFeed { fruit: 1 }), i, -1500, 500)
    }

    fn pet(&mut self, i: usize) -> (c: Chore)
        requires
            i < old(self).civet_names@.len(),
            fits_i32(old(self).reputation + 1),
        ensures
            (final(self)@, c) == pet_rule(old(self)@, i),
    {
        reveal(pet_rule);
        self.reputation = self.reputation + 1;
        self.dirty_visuals = true;
        self.say_name(i, PETTED_EN, PETTED_SV);
        care_chore(effect(-40, 250, StockMove::Still), i, 100, 1100)
    }

    fn use_item(&mut self, i: usize, item: InventoryItem) -> (c: Chore)
        requires
            i < old(self).civet_names@.len(),
            item == InventoryItem::TinyBrush ==> fits_i32(old(self).reputation + 1),
        ensures
            (final(self)@, c) == item_rule(old(self)@, i, item),
    {
        match item {
            InventoryItem::TinyBrush => self.brush(i),
            InventoryItem::RibbonCollar => self.collar(i),
            InventoryItem::FruitPuzzle => self.puzzle(i),
        }
    }

    fn brush(&mut self, i: usize) -> (c: Chore)
        requires
            i < old(self).civet_names@.len(),
            fits_i32(old(self).reputation + 1),
        ensures
            (final(self)@, c) == item_rule(old(self)@, i, InventoryItem::TinyBrush),
    {
        reveal(item_rule);
        self.reputation = self.reputation + 1;
        self.dirty_visuals = true;
        self.say_name(i, BRUSHED_EN, BRUSHED_SV);
        care_chore(effect(0, 200, StockMove::Still), i, 50, 700)
    }

    fn collar(&mut self, i: usize) -> (c: Chore)
        requires
            i < old(self).civet_names@.len(),
        ensures
            (final(self)@, c) == item_rule(old(self)@, i, InventoryItem::RibbonCollar),
    {
        reveal(item_rule);
        self.dirty_visuals = true;
        self.say_name(i, COLLAR_EN, COLLAR_SV);
        care_chore(effect(-70, 150, StockMove::Still), i, 0, 500)
    }

    fn puzzle(&mut self, i: usize) -> (c: Chore)
        requires
            i < old(self).civet_names@.len(),
        ensures
            (final(self)@, c) == item_rule(old(self)@, i, InventoryItem::FruitPuzzle),
    {
        reveal(item_rule);
        self.dirty_visuals = true;
        self.say_name(i, PUZZLE_EN, PUZZLE_SV);
        care_chore(effect(-40, 250, StockMove::Still), i, -400, 800)
    }

    /// Civet care (see `care_rule`).
    pub fn civet_care(&mut self, a: Action, r: FieldReading) -> (c: Chore)
        requires
            care_fits(old(self)@, a),
        ensures
            (final(self)@, c) == care_rule(old(self)@, a, r),
    {
        match a {
            Action::FeedSelectedCivet => self.feed_selected(r),
            Action::GiveFruitFromInventory => self.give_fruit(r),
            Action::PickUpBeansToInventory => {
                if self.current_room != PlantationRoom::Sanctuary {
                    self.say(BEANS_NEAR_EN, BEANS_NEAR_SV);
                    new_chore(effect(0, 0, StockMove::Still), false, true)
                } else if !r.near_civets {
                    self.say(WORK_AREA_EN, WORK_AREA_SV);
                    new_chore(effect(0, 0, StockMove::Still), false, true)
                } else {
                    self.dirty_visuals = true;
                    new_chore(effect(40, 0, StockMove::PickUp), true, true)
                }
            },
            _ => self.selected_care(a),
        }
    }

    fn feed_selected(&mut self, r: FieldReading) -> (c: Chore)
        requires
            old(self).civets < usize::MAX,
        ensures
            (final(self)@, c) == feed_selected_rule(old(self)@, r),
    {
        let ch = self.ensure_civet_profiles();
        proof {
            crate::journal::lemma_lines_len(self.civet_names@);
        }
        let c = match self.selected_civet {
            None => {
                self.say(SELECT_FIRST_EN, SELECT_FIRST_SV);
                new_chore(effect(0, 0, StockMove::Still), false, true)
            },
            Some(i) => if !r.fruit_for_tray {
                self.say(NO_TRAY_EN, NO_TRAY_SV);
                new_chore(effect(120, -200, StockMove::Still), true, true)
            } else {
                self.tray(i)
            },
        };
        Chore { roster: ch, ..c }
    }

    fn give_fruit(&mut self, r: FieldReading) -> (c: Chore)
        requires
            old(self).civets < usize::MAX,
        ensures
            (final(self)@, c) == give_fruit_rule(old(self)@, r),
    {
        if self.current_room != PlantationRoom::Sanctuary {
            self.say(TO_SANCTUARY_EN, TO_SANCTUARY_SV);
            return new_chore(effect(0, 0, StockMove::Still), false, true);
        }
        if !r.fruit_in_sack {
            self.say(EMPTY_SACK_EN, EMPTY_SACK_SV);
            return new_chore(effect(0, 0, StockMove::Still), false, true);
        }
        if !r.near_civets {
            self.say(WALK_CLOSER_EN, WALK_CLOSER_SV);
            return new_chore(effect(0, 0, StockMove::Still), false, true);
        }
        let ch = self.ensure_civet_profiles();
        proof {
            crate::estate::lemma_roster_nonempty(old(self)@);
        }
        proof {
            crate::journal::lemma_lines_len(self.civet_names@);
        }
        let c = self.sack_fruit();
        Chore { roster: ch, ..c }
    }

    fn selected_care(&mut self, a: Action) -> (c: Chore)
        requires
            care_fits(old(self)@, a),
            a != Action::FeedSelectedCivet,
            a != Action::GiveFruitFromInventory,
            a != Action::PickUpBeansToInventory,
        ensures
            (final(self)@, c) == selected_care_rule(old(self)@, a),
    {
        let ch = self.ensure_civet_profiles();
        proof {
            crate::journal::lemma_lines_len(self.civet_names@);
        }
        let c = match self.selected_civet {
            None => {
                self.say(SELECT_FIRST_EN, SELECT_FIRST_SV);
                new_chore(effect(0, 0, StockMove::Still), false, true)
            },
            Some(i) => match a {
                Action::PetSelectedCivet => self.pet(i),
                Action::InspectSelectedCivet => new_chore(effect(0, 0, StockMove::CivetNotes(i)), false, true),
                _ => {
                    let item = item_of_action(a);
                    if !self.holds_item(item) {
                        self.say(NOT_IN_BASKET_EN, NOT_IN_BASKET_SV);
                        new_chore(effect(0, 0, StockMove::Still), false, true)
                    } else {
                        self.use_item(i, item)
                    }
                },
            },
        };
        Chore { roster: ch, ..c }
    }
}

} // verus!
