//! Field, roastery and office work in the full game, the answers to
//! Operation Bitter Bean, and the purchases of upgrades.
use vstd::prelude::*;
use crate::chores::{
    new_chore, chore, quiet, say, Action, Chore, FieldReading, ALREADY_BUILT_EN, ALREADY_BUILT_SV, ENCLOSURE_EN,
    ENCLOSURE_NEEDS_EN, ENCLOSURE_NEEDS_SV, ENCLOSURE_SV, FED_EN, FED_SV, GOAT_LEAVES_EN, GOAT_LEAVES_SV,
    NO_BEANS_EN, NO_BEANS_SV, NO_FRUIT_EN, NO_FRUIT_SV, NO_PAPER_MONEY_EN, NO_PAPER_MONEY_SV, NO_PLANT_MONEY_EN,
    NO_PLANT_MONEY_SV, NO_ROASTED_EN, NO_ROASTED_SV, PAPERWORK_EN, PAPERWORK_READ_EN, PAPERWORK_READ_SV,
    PAPERWORK_SV, PLANTED_EN, PLANTED_SV, ROASTED_EN, ROASTED_SV, TASTING_PASSED_EN, TASTING_PASSED_SV,
    TASTING_SPOONS_EN, TASTING_SPOONS_SV, UPGRADE_NEEDS_EN, UPGRADE_NEEDS_SV, WORK_PAUSED_EN, WORK_PAUSED_SV,
};
use crate::effect::{effect, fx, no_effect, Effect, StockMove};
use crate::estate::{Estate, EstateView};
use crate::ledger::Sale;
use crate::events::fits_i32;
use crate::journal::logged;
use crate::localization::{in_language, language_text, Language};
use crate::text::{number_line, with_number};

verus! {

/// The five upgrades.
#[derive(Clone, Copy, Debug, PartialEq, Eq, Structural)]
pub enum Upgrade {
    LegalOffice,
    Caretaker,
    FruitSorter,
    RoastingShed,
    TastingRoom,
}

/// What an upgrade costs to build.
pub open spec fn upgrade_cost(u: Upgrade) -> int {
    match u {
        Upgrade::LegalOffice => 110,
        Upgrade::Caretaker => 85,
        Upgrade::FruitSorter => 95,
        Upgrade::RoastingShed => 125,
        Upgrade::TastingRoom => 140,
    }
}

pub fn upgrade_price(u: Upgrade) -> (c: i32)
    ensures
        c == upgrade_cost(u),
{
    match u {
        Upgrade::LegalOffice => 110,
        Upgrade::Caretaker => 85,
        Upgrade::FruitSorter => 95,
        Upgrade::RoastingShed => 125,
        Upgrade::TastingRoom => 140,
    }
}

/// Whether an upgrade is built.
pub open spec fn has_upgrade(v: EstateView, u: Upgrade) -> bool {
    match u {
        Upgrade::LegalOffice => v.legal_office,
        Upgrade::Caretaker => v.caretaker,
        Upgrade::FruitSorter => v.fruit_sorter,
        Upgrade::RoastingShed => v.roasting_shed,
        Upgrade::TastingRoom => v.tasting_room,
    }
}

/// The estate with an upgrade built.
pub open spec fn with_upgrade(v: EstateView, u: Upgrade) -> EstateView {
    EstateView {
        legal_office: v.legal_office || u == Upgrade::LegalOffice,
        caretaker: v.caretaker || u == Upgrade::Caretaker,
        fruit_sorter: v.fruit_sorter || u == Upgrade::FruitSorter,
        roasting_shed: v.roasting_shed || u == Upgrade::RoastingShed,
        tasting_room: v.tasting_room || u == Upgrade::TastingRoom,
        ..v
    }
}

/// The line logged when an upgrade is built.
pub open spec fn built_line(u: Upgrade) -> (Seq<char>, Seq<char>) {
    match u {
        Upgrade::LegalOffice => (
            "Built Legal Office. Suspicion now has to wait in reception."@,
            "Byggde juridiskt kontor. Misstanken måste nu vänta i receptionen."@,
        ),
        Upgrade::Caretaker => (
            "Hired caretaker. Civets receive professional attention and fewer dramatic sighs."@,
            "Anställde djurskötare. Palmmårdarna får professionell omsorg och färre dramatiska suckar."@,
        ),
        Upgrade::FruitSorter => (
            "Installed fruit sorter. Low-quality fruit is now rejected before the civets can judge you."@,
            "Installerade fruktsorterare. Dålig frukt avvisas nu innan palmmårdarna kan döma dig."@,
        ),
        Upgrade::RoastingShed => (
            "Built roasting shed. Smoke is now artisanal instead of incriminating."@,
            "Byggde rostningsskjul. Röken är nu hantverksmässig i stället för belastande."@,
        ),
        Upgrade::TastingRoom => (
            "Opened tasting room. Guests pay extra to misunderstand the business in person."@,
            "Öppnade provsmakningsrum. Gäster betalar extra för att missförstå verksamheten på plats."@,
        ),
    }
}

fn built_text(u: Upgrade) -> (r: (&'static str, &'static str))
    ensures
        (r.0@, r.1@) == built_line(u),
{
    match u {
        Upgrade::LegalOffice => (
            "Built Legal Office. Suspicion now has to wait in reception.",
            "Byggde juridiskt kontor. Misstanken måste nu vänta i receptionen.",
        ),
        Upgrade::Caretaker => (
            "Hired caretaker. Civets receive professional attention and fewer dramatic sighs.",
            "Anställde djurskötare. Palmmårdarna får professionell omsorg och färre dramatiska suckar.",
        ),
        Upgrade::FruitSorter => (
            "Installed fruit sorter. Low-quality fruit is now rejected before the civets can judge you.",
            "Installerade fruktsorterare. Dålig frukt avvisas nu innan palmmårdarna kan döma dig.",
        ),
        Upgrade::RoastingShed => (
            "Built roasting shed. Smoke is now artisanal instead of incriminating.",
            "Byggde rostningsskjul. Röken är nu hantverksmässig i stället för belastande.",
        ),
        Upgrade::TastingRoom => (
            "Opened tasting room. Guests pay extra to misunderstand the business in person.",
            "Öppnade provsmakningsrum. Gäster betalar extra för att missförstå verksamheten på plats.",
        ),
    }
}

/// The estate with an upgrade built for its price: the cost is paid and
/// booked, a point of reputation, the visuals redrawn, the line logged.
#[verifier::opaque]
pub open spec fn built_rule(v: EstateView, u: Upgrade) -> (EstateView, Chore) {
    let cost = upgrade_cost(u);
    let w = with_upgrade(
        EstateView {
            money: v.money - cost,
            daily_expenses: v.daily_expenses + cost,
            reputation: v.reputation + 1,
            dirty_visuals: true,
            ..v
        },
        u,
    );
    (say(w, built_line(u).0, built_line(u).1), chore(fx(200, 0, StockMove::Still), false, true))
}

/// Buying an upgrade: refused when already built or when the money is
/// short; otherwise built, adding two points of suspicion.
pub open spec fn buy_upgrade_rule(v: EstateView, u: Upgrade) -> (EstateView, Chore) {
    let cost = upgrade_cost(u);
    if has_upgrade(v, u) {
        refused_rule(v, ALREADY_BUILT_EN@, ALREADY_BUILT_SV@)
    } else if v.money < cost {
        refused_rule(v, with_number(UPGRADE_NEEDS_EN@, cost, "."@), with_number(UPGRADE_NEEDS_SV@, cost, "."@))
    } else {
        built_rule(v, u)
    }
}

/// What improving the enclosure costs at a level.
pub open spec fn enclosure_cost(level: int) -> int {
    45 + (level as i32) * 20
}

/// What showing paperwork costs: cheaper with a legal office.
pub open spec fn paperwork_cost(level: int, legal_office: bool) -> int {
    if legal_office { 8 + (level as i32) * 2 } else { 16 + (level as i32) * 3 }
}

/// Reading the paperwork to the inspectors: $18, three points of
/// reputation, and suspicion falls by 46 plus 5 per paperwork level.
#[verifier::opaque]
pub open spec fn read_paperwork_rule(v: EstateView) -> (EstateView, Chore) {
    (
        say(
            EstateView { money: v.money - 18, reputation: v.reputation + 3, inspection: false, ..v },
            PAPERWORK_READ_EN@,
            PAPERWORK_READ_SV@,
        ),
        chore(fx(-(4600 + 500 * v.paperwork_level), 0, StockMove::Still), true, false),
    )
}

/// A coffee tasting with four roasted bags: they and $8 go, 6 reputation
/// is earned and 34 points of suspicion fall.
#[verifier::opaque]
pub open spec fn tasting_passed_rule(v: EstateView) -> (EstateView, Chore) {
    (
        say(
            EstateView { money: v.money - 8, reputation: v.reputation + 6, inspection: false, ..v },
            TASTING_PASSED_EN@,
            TASTING_PASSED_SV@,
        ),
        chore(fx(-3400, 0, StockMove::TakeRoasted(4)), true, false),
    )
}

/// A coffee tasting without the coffee: 2 reputation lost, 12 points of
/// suspicion fall.
#[verifier::opaque]
pub open spec fn tasting_spoons_rule(v: EstateView) -> (EstateView, Chore) {
    (
        say(EstateView { reputation: v.reputation - 2, inspection: false, ..v }, TASTING_SPOONS_EN@, TASTING_SPOONS_SV@),
        chore(fx(-1200, 0, StockMove::Still), true, false),
    )
}

/// A coffee tasting for the inspectors, with or without four roasted bags.
pub open spec fn tasting_rule(v: EstateView, stock: bool) -> (EstateView, Chore) {
    if stock { tasting_passed_rule(v) } else { tasting_spoons_rule(v) }
}

/// Blaming the goat: it leaves, 4 reputation, 24 points of suspicion and
/// 6 of happiness go.
#[verifier::opaque]
pub open spec fn goat_rule(v: EstateView) -> (EstateView, Chore) {
    (
        say(
            EstateView {
                reputation: v.reputation - 4,
                goat_present: false,
                inspection: false,
                dirty_visuals: true,
                ..v
            },
            GOAT_LEAVES_EN@,
            GOAT_LEAVES_SV@,
        ),
        chore(fx(-2400, -600, StockMove::Still), true, false),
    )
}

/// Any other action during the inspection: work is paused.
pub open spec fn paused_rule(v: EstateView) -> (EstateView, Chore) {
    (say(v, WORK_PAUSED_EN@, WORK_PAUSED_SV@), chore(no_effect(), true, false))
}

/// The answers to Operation Bitter Bean; any other action only logs that
/// work is paused. The meters are clamped afterwards.
pub open spec fn inspection_rule(v: EstateView, a: Action, r: FieldReading) -> (EstateView, Chore) {
    match a {
        Action::InspectPaperwork => read_paperwork_rule(v),
        Action::InspectTasting => tasting_rule(v, r.tasting_stock),
        Action::InspectGoat => goat_rule(v),
        _ => paused_rule(v),
    }
}

pub open spec fn inspection_fits(v: EstateView, a: Action, r: FieldReading) -> bool {
    match a {
        Action::InspectPaperwork => fits_i32(v.money - 18) && fits_i32(v.reputation + 3),
        Action::InspectTasting => if r.tasting_stock {
            fits_i32(v.money - 8) && fits_i32(v.reputation + 6)
        } else {
            fits_i32(v.reputation - 2)
        },
        Action::InspectGoat => fits_i32(v.reputation - 4),
        _ => true,
    }
}

/// Logging a refusal; the morale check follows.
pub open spec fn refused_rule(v: EstateView, en: Seq<char>, sv: Seq<char>) -> (EstateView, Chore) {
    (say(v, en, sv), chore(no_effect(), false, true))
}

/// Planting a shrub for $14; a crowded field (more than 18) draws 3.5
/// suspicion, else 1.2.
#[verifier::opaque]
pub open spec fn planted_rule(v: EstateView) -> (EstateView, Chore) {
    let plants = v.coffee_plants + 1;
    (
        say(EstateView { money: v.money - 14, coffee_plants: plants, dirty_visuals: true, ..v }, PLANTED_EN@, PLANTED_SV@),
        chore(fx(if plants > 18 { 350 } else { 120 }, 0, StockMove::Still), false, true),
    )
}

pub open spec fn plant_rule(v: EstateView) -> (EstateView, Chore) {
    if v.money >= 14 { planted_rule(v) } else { refused_rule(v, NO_PLANT_MONEY_EN@, NO_PLANT_MONEY_SV@) }
}

/// Feeding the civets from the fruit stock.
#[verifier::opaque]
pub open spec fn fed_rule(v: EstateView) -> (EstateView, Chore) {
    (
        say(EstateView { dirty_visuals: true, ..v }, FED_EN@, FED_SV@),
        chore(fx(-100, 0, StockMove::Feed { sorter: v.fruit_sorter }), false, true),
    )
}

/// Feeding needs fruit and civets; without, the civets complain: 3 suspicion,
/// 5 happiness.
pub open spec fn feed_rule(v: EstateView, fruit_on_hand: bool) -> (EstateView, Chore) {
    if fruit_on_hand && v.civets > 0 {
        fed_rule(v)
    } else {
        (say(v, NO_FRUIT_EN@, NO_FRUIT_SV@), chore(fx(300, -500, StockMove::Still), false, true))
    }
}

/// Roasting a batch: $2 and 0.8 suspicion, or $1 and 0.4 with a roasting shed.
#[verifier::opaque]
pub open spec fn roasted_rule(v: EstateView) -> (EstateView, Chore) {
    (
        say(
            EstateView { money: v.money - if v.roasting_shed { 1int } else { 2 }, dirty_visuals: true, ..v },
            ROASTED_EN@,
            ROASTED_SV@,
        ),
        chore(fx(if v.roasting_shed { 40 } else { 80 }, 0, StockMove::Roast { shed: v.roasting_shed }), false, true),
    )
}

pub open spec fn roast_rule(v: EstateView, beans: bool) -> (EstateView, Chore) {
    if beans { roasted_rule(v) } else { refused_rule(v, NO_BEANS_EN@, NO_BEANS_SV@) }
}

/// Selling roasted coffee: the earnings count as money and as the day's
/// sales; reputation rises by one, the bag bonus, and one with a tasting
/// room; a large sale draws 4 suspicion (2.5 with a tasting room), else 1.2.
#[verifier::opaque]
pub open spec fn sold_rule(v: EstateView, s: Sale) -> (EstateView, Chore) {
    (
        EstateView {
            money: v.money + s.earned,
            daily_sales: v.daily_sales + s.earned,
            reputation: v.reputation + 1 + s.bag_bonus + if v.tasting_room { 1int } else { 0 },
            dirty_visuals: true,
            ..v
        },
        chore(fx(if s.large { if v.tasting_room { 250 } else { 400 } } else { 120 }, 0, StockMove::Sell), false, true),
    )
}

pub open spec fn sell_rule(v: EstateView, sale: Option<Sale>) -> (EstateView, Chore) {
    match sale {
        Some(s) => sold_rule(v, s),
        None => refused_rule(v, NO_ROASTED_EN@, NO_ROASTED_SV@),
    }
}

/// Field and roastery work outside an inspection: planting, harvesting,
/// feeding, collecting, roasting and selling. The morale check follows.
pub open spec fn field_rule(v: EstateView, a: Action, r: FieldReading) -> (EstateView, Chore) {
    match a {
        Action::PlantCoffee => plant_rule(v),
        Action::HarvestFruit => (EstateView { dirty_visuals: true, ..v }, chore(fx(0, -80, StockMove::Harvest), false, true)),
        Action::FeedCivets => feed_rule(v, r.fruit_on_hand),
        Action::CollectBeans => (EstateView { dirty_visuals: true, ..v }, chore(fx(70, 0, StockMove::Collect), false, true)),
        Action::RoastCoffee => roast_rule(v, r.beans_for_batch),
        Action::SellCoffee => sell_rule(v, r.sale),
        _ => (v, chore(no_effect(), false, true)),
    }
}

pub open spec fn field_fits(v: EstateView, a: Action, r: FieldReading) -> bool {
    match a {
        Action::PlantCoffee => v.money >= 14 ==> v.coffee_plants < u32::MAX,
        Action::RoastCoffee => r.beans_for_batch ==> fits_i32(v.money - 2),
        Action::SellCoffee => match r.sale {
            Some(s) => {
                &&& fits_i32(v.money + s.earned)
                &&& fits_i32(v.daily_sales + s.earned)
                &&& fits_i32(1 + s.bag_bonus)
                &&& fits_i32(1 + s.bag_bonus + if v.tasting_room { 1int } else { 0 })
                &&& fits_i32(v.reputation + 1 + s.bag_bonus + if v.tasting_room { 1int } else { 0 })
            },
            None => true,
        },
        _ => true,
    }
}

/// Improving the enclosure for `cost`: 2 reputation, 18 happiness, 8
/// points of suspicion off.
#[verifier::opaque]
pub open spec fn enclosed_rule(v: EstateView, cost: int) -> (EstateView, Chore) {
    (
        say(
            EstateView {
                money: v.money - cost,
                daily_expenses: v.daily_expenses + cost,
                enclosure_level: v.enclosure_level + 1,
                reputation: v.reputation + 2,
                ..v
            },
            ENCLOSURE_EN@,
            ENCLOSURE_SV@,
        ),
        chore(fx(-800, 1800, StockMove::Still), false, true),
    )
}

/// Improving the enclosure (see `enclosure_cost`), or the price is logged.
pub open spec fn enclosure_rule(v: EstateView) -> (EstateView, Chore) {
    let cost = enclosure_cost(v.enclosure_level);
    if v.money >= cost {
        enclosed_rule(v, cost)
    } else {
        refused_rule(v, with_number(ENCLOSURE_NEEDS_EN@, cost, "."@), with_number(ENCLOSURE_NEEDS_SV@, cost, "."@))
    }
}

/// Showing paperwork for `cost`: a level, a point of reputation, and
/// suspicion falls by 18 (26 with a legal office) plus the new level.
#[verifier::opaque]
pub open spec fn paperwork_shown_rule(v: EstateView, cost: int) -> (EstateView, Chore) {
    let level = v.paperwork_level + 1;
    (
        say(
            EstateView {
                money: v.money - cost,
                daily_expenses: v.daily_expenses + cost,
                paperwork_level: level,
                reputation: v.reputation + 1,
                dirty_visuals: true,
                ..v
            },
            PAPERWORK_EN@,
            PAPERWORK_SV@,
        ),
        chore(fx(-(1800 + (if v.legal_office { 800int } else { 0 }) + 100 * level), 0, StockMove::Still), false, true),
    )
}

/// Showing paperwork (see `paperwork_cost`), or the shortfall is logged.
pub open spec fn paperwork_rule(v: EstateView) -> (EstateView, Chore) {
    let cost = paperwork_cost(v.paperwork_level, v.legal_office);
    if v.money >= cost {
        paperwork_shown_rule(v, cost)
    } else {
        refused_rule(v, NO_PAPER_MONEY_EN@, NO_PAPER_MONEY_SV@)
    }
}

/// Office work outside an inspection: the enclosure, the paperwork annex
/// and the upgrades. The morale check follows.
pub open spec fn office_rule(v: EstateView, a: Action) -> (EstateView, Chore) {
    match a {
        Action::ImproveEnclosure => enclosure_rule(v),
        Action::ShowPaperwork => paperwork_rule(v),
        Action::BuildLegalOffice => buy_upgrade_rule(v, Upgrade::LegalOffice),
        Action::HireCaretaker => buy_upgrade_rule(v, Upgrade::Caretaker),
        Action::BuildFruitSorter => buy_upgrade_rule(v, Upgrade::FruitSorter),
        Action::BuildRoastingShed => buy_upgrade_rule(v, Upgrade::RoastingShed),
        Action::BuildTastingRoom => buy_upgrade_rule(v, Upgrade::TastingRoom),
        _ => (v, chore(no_effect(), false, true)),
    }
}

pub open spec fn upgrade_fits(v: EstateView, u: Upgrade) -> bool {
    !has_upgrade(v, u) && v.money >= upgrade_cost(u) ==> fits_i32(v.daily_expenses + upgrade_cost(u))
        && fits_i32(v.reputation + 1)
}

pub open spec fn office_fits(v: EstateView, a: Action) -> bool {
    match a {
        Action::ImproveEnclosure => {
            let cost = enclosure_cost(v.enclosure_level);
            &&& fits_i32((v.enclosure_level as i32) * 20)
            &&& fits_i32(cost)
            &&& v.money >= cost ==> {
                &&& fits_i32(v.money - cost)
                &&& fits_i32(v.daily_expenses + cost)
                &&& v.enclosure_level < u32::MAX
                &&& fits_i32(v.reputation + 2)
            }
        },
        Action::ShowPaperwork => {
            let cost = paperwork_cost(v.paperwork_level, v.legal_office);
            &&& fits_i32((v.paperwork_level as i32) * if v.legal_office { 2int } else { 3 })
            &&& fits_i32(cost)
            &&& v.money >= cost ==> {
                &&& fits_i32(v.money - cost)
                &&& fits_i32(v.daily_expenses + cost)
                &&& v.paperwork_level < u32::MAX
                &&& fits_i32(v.reputation + 1)
            }
        },
        Action::BuildLegalOffice => upgrade_fits(v, Upgrade::LegalOffice),
        Action::HireCaretaker => upgrade_fits(v, Upgrade::Caretaker),
        Action::BuildFruitSorter => upgrade_fits(v, Upgrade::FruitSorter),
        Action::BuildRoastingShed => upgrade_fits(v, Upgrade::RoastingShed),
        Action::BuildTastingRoom => upgrade_fits(v, Upgrade::TastingRoom),
        _ => true,
    }
}

pub fn fits32(x: i64) -> (b: bool)
    ensures
        b == fits_i32(x as int),
{
    i32::MIN as i64 <= x && x <= i32::MAX as i64
}

impl Estate {
    /// Logs a line in the estate's language.
    pub fn say(&mut self, en: &'static str, sv: &'static str)
        ensures
            final(self)@ == say(old(self)@, en@, sv@),
    {
        let line = language_text(self.language, en, sv);
        self.log_text(line);
    }

    /// Logs a refusal; the morale check follows.
    fn refuse(&mut self, en: &'static str, sv: &'static str) -> (c: Chore)
        ensures
            (final(self)@, c) == refused_rule(old(self)@, en@, sv@),
    {
        self.say(en, sv);
        new_chore(effect(0, 0, StockMove::Still), false, true)
    }

    /// Logs a refusal that names a price; the morale check follows.
    fn refuse_price(&mut self, en: &'static str, sv: &'static str, cost: i32) -> (c: Chore)
        ensures
            (final(self)@, c) == refused_rule(
                old(self)@,
                with_number(en@, cost as int, "."@),
                with_number(sv@, cost as int, "."@),
            ),
    {
        let line = if self.language == Language::Swedish {
            number_line(sv, cost as i64, ".")
        } else {
            number_line(en, cost as i64, ".")
        };
        self.log_line(line);
        new_chore(effect(0, 0, StockMove::Still), false, true)
    }

    /// Whether `answer_inspection` stays inside the machine types.
    pub fn inspection_fits(&self, a: Action, r: FieldReading) -> (ok: bool)
        ensures
            ok == inspection_fits(self@, a, r),
    {
        let money = self.money as i64;
        let rep = self.reputation as i64;
        match a {
            Action::InspectPaperwork => fits32(money - 18) && fits32(rep + 3),
            Action::InspectTasting => if r.tasting_stock {
                fits32(money - 8) && fits32(rep + 6)
            } else {
                fits32(rep - 2)
            },
            Action::InspectGoat => fits32(rep - 4),
            _ => true,
        }
    }

    /// Answers Operation Bitter Bean (see `inspection_rule`).
    pub fn answer_inspection(&mut self, a: Action, r: FieldReading) -> (c: Chore)
        requires
            inspection_fits(old(self)@, a, r),
        ensures
            (final(self)@, c) == inspection_rule(old(self)@, a, r),
    {
        match a {
            Action::InspectPaperwork => self.read_paperwork(),
            Action::InspectTasting => if r.tasting_stock {
                self.tasting_passed()
            } else {
                self.tasting_spoons()
            },
            Action::InspectGoat => self.blame_goat(),
            _ => {
                self.say(WORK_PAUSED_EN, WORK_PAUSED_SV);
                new_chore(effect(0, 0, StockMove::Still), true, false)
            },
        }
    }

    fn read_paperwork(&mut self) -> (c: Chore)
        requires
            fits_i32(old(self).money - 18) && fits_i32(old(self).reputation + 3),
        ensures
            (final(self)@, c) == read_paperwork_rule(old(self)@),
    {
        reveal(read_paperwork_rule);
        self.money = self.money - 18;
        self.reputation = self.reputation + 3;
        self.inspection = false;
        self.say(PAPERWORK_READ_EN, PAPERWORK_READ_SV);
        let relief = 4600 + 500 * (self.paperwork_level as i64);
        new_chore(effect(-relief, 0, StockMove::Still), true, false)
    }

    fn tasting_passed(&mut self) -> (c: Chore)
        requires
            fits_i32(old(self).money - 8) && fits_i32(old(self).reputation + 6),
        ensures
            (final(self)@, c) == tasting_passed_rule(old(self)@),
    {
        reveal(tasting_passed_rule);
        self.money = self.money - 8;
        self.reputation = self.reputation + 6;
        self.inspection = false;
        self.say(TASTING_PASSED_EN, TASTING_PASSED_SV);
        new_chore(effect(-3400, 0, StockMove::TakeRoasted(4)), true, false)
    }

    fn tasting_spoons(&mut self) -> (c: Chore)
        requires
            fits_i32(old(self).reputation - 2),
        ensures
            (final(self)@, c) == tasting_spoons_rule(old(self)@),
    {
        reveal(tasting_spoons_rule);
        self.reputation = self.reputation - 2;
        self.inspection = false;
        self.say(TASTING_SPOONS_EN, TASTING_SPOONS_SV);
        new_chore(effect(-1200, 0, StockMove::Still), true, false)
    }

    fn blame_goat(&mut self) -> (c: Chore)
        requires
            fits_i32(old(self).reputation - 4),
        ensures
            (final(self)@, c) == goat_rule(old(self)@),
    {
        reveal(goat_rule);
        self.reputation = self.reputation - 4;
        self.goat_present = false;
        self.inspection = false;
        self.dirty_visuals = true;
        self.say(GOAT_LEAVES_EN, GOAT_LEAVES_SV);
        new_chore(effect(-2400, -600, StockMove::Still), true, false)
    }

    /// Whether `field_work` stays inside the machine types.
    pub fn field_fits(&self, a: Action, r: FieldReading) -> (ok: bool)
        ensures
            ok == field_fits(self@, a, r),
    {
        let money = self.money as i64;
        let rep = self.reputation as i64;
        match a {
            Action::PlantCoffee => self.money < 14 || self.coffee_plants < u32::MAX,
            Action::RoastCoffee => !r.beans_for_batch || fits32(money - 2),
            Action::SellCoffee => match r.sale {
                Some(s) => {
                    let bonus: i64 = if self.tasting_room { 1 } else { 0 };
                    fits32(money + s.earned as i64) && fits32(self.daily_sales as i64 + s.earned as i64)
                        && fits32(1 + s.bag_bonus as i64) && fits32(1 + s.bag_bonus as i64 + bonus)
                        && fits32(rep + 1 + s.bag_bonus as i64 + bonus)
                },
                None => true,
            },
            _ => true,
        }
    }

    /// Field and roastery work (see `field_rule`).
    pub fn field_work(&mut self, a: Action, r: FieldReading) -> (c: Chore)
        requires
            field_fits(old(self)@, a, r),
        ensures
            (final(self)@, c) == field_rule(old(self)@, a, r),
    {
        match a {
            Action::PlantCoffee => if self.money >= 14 {
                self.plant()
            } else {
                self.refuse(NO_PLANT_MONEY_EN, NO_PLANT_MONEY_SV)
            },
            Action::HarvestFruit => {
                self.dirty_visuals = true;
                new_chore(effect(0, -80, StockMove::Harvest), false, true)
            },
            Action::FeedCivets => if r.fruit_on_hand && self.civets > 0 {
                self.feed()
            } else {
                self.say(NO_FRUIT_EN, NO_FRUIT_SV);
                new_chore(effect(300, -500, StockMove::Still), false, true)
            },
            Action::CollectBeans => {
                self.dirty_visuals = true;
                new_chore(effect(70, 0, StockMove::Collect), false, true)
            },
            Action::RoastCoffee => if r.beans_for_batch {
                self.roast()
            } else {
                self.refuse(NO_BEANS_EN, NO_BEANS_SV)
            },
            Action::SellCoffee => match r.sale {
                Some(s) => self.sell(s),
                None => self.refuse(NO_ROASTED_EN, NO_ROASTED_SV),
            },
            _ => new_chore(effect(0, 0, StockMove::Still), false, true),
        }
    }

    fn plant(&mut self) -> (c: Chore)
        requires
            old(self).money >= 14,
            old(self).coffee_plants < u32::MAX,
        ensures
            (final(self)@, c) == planted_rule(old(self)@),
    {
        reveal(planted_rule);
        self.money = self.money - 14;
        self.coffee_plants = self.coffee_plants + 1;
        self.dirty_visuals = true;
        self.say(PLANTED_EN, PLANTED_SV);
        new_chore(effect(if self.coffee_plants > 18 { 350 } else { 120 }, 0, StockMove::Still), false, true)
    }

    fn feed(&mut self) -> (c: Chore)
        ensures
            (final(self)@, c) == fed_rule(old(self)@),
    {
        reveal(fed_rule);
        self.dirty_visuals = true;
        self.say(FED_EN, FED_SV);
        new_chore(effect(-100, 0, StockMove::Feed { sorter: self.fruit_sorter }), false, true)
    }

    fn roast(&mut self) -> (c: Chore)
        requires
            fits_i32(old(self).money - 2),
        ensures
            (final(self)@, c) == roasted_rule(old(self)@),
    {
        reveal(roasted_rule);
        let shed = self.roasting_shed;
        self.money = self.money - if shed { 1 } else { 2 };
        self.dirty_visuals = true;
        self.say(ROASTED_EN, ROASTED_SV);
        new_chore(effect(if shed { 40 } else { 80 }, 0, StockMove::Roast { shed }), false, true)
    }

    fn sell(&mut self, s: Sale) -> (c: Chore)
        requires
            fits_i32(old(self).money + s.earned),
            fits_i32(old(self).daily_sales + s.earned),
            fits_i32(1 + s.bag_bonus + if old(self).tasting_room { 1int } else { 0 }),
            fits_i32(old(self).reputation + 1 + s.bag_bonus + if old(self).tasting_room { 1int } else { 0 }),
        ensures
            (final(self)@, c) == sold_rule(old(self)@, s),
    {
        reveal(sold_rule);
        let bonus: i32 = if self.tasting_room { 1 } else { 0 };
        self.money = self.money + s.earned;
        self.daily_sales = self.daily_sales + s.earned;
        self.reputation = self.reputation + (1 + s.bag_bonus + bonus);
        self.dirty_visuals = true;
        new_chore(
            effect(if s.large { if self.tasting_room { 250 } else { 400 } } else { 120 }, 0, StockMove::Sell),
            false,
            true,
        )
    }

    /// Whether `office_work` stays inside the machine types.
    pub fn office_fits(&self, a: Action) -> (ok: bool)
        ensures
            ok == office_fits(self@, a),
    {
        let money = self.money as i64;
        let rep = self.reputation as i64;
        let expenses = self.daily_expenses as i64;
        match a {
            Action::ImproveEnclosure => {
                let scaled = (self.enclosure_level as i32) as i64 * 20;
                let cost = 45 + scaled;
                fits32(scaled) && fits32(cost) && (money < cost || (fits32(money - cost) && fits32(expenses + cost)
                    && self.enclosure_level < u32::MAX && fits32(rep + 2)))
            },
            Action::ShowPaperwork => {
                let scaled = (self.paperwork_level as i32) as i64 * if self.legal_office { 2 } else { 3 };
                let cost = if self.legal_office { 8 + scaled } else { 16 + scaled };
                fits32(scaled) && fits32(cost) && (money < cost || (fits32(money - cost) && fits32(expenses + cost)
                    && self.paperwork_level < u32::MAX && fits32(rep + 1)))
            },
            Action::BuildLegalOffice => self.upgrade_fits(Upgrade::LegalOffice),
            Action::HireCaretaker => self.upgrade_fits(Upgrade::Caretaker),
            Action::BuildFruitSorter => self.upgrade_fits(Upgrade::FruitSorter),
            Action::BuildRoastingShed => self.upgrade_fits(Upgrade::RoastingShed),
            Action::BuildTastingRoom => self.upgrade_fits(Upgrade::TastingRoom),
            _ => true,
        }
    }

    pub fn has_upgrade(&self, u: Upgrade) -> (b: bool)
        ensures
            b == has_upgrade(self@, u),
    {
        match u {
            Upgrade::LegalOffice => self.legal_office,
            Upgrade::Caretaker => self.caretaker,
            Upgrade::FruitSorter => self.fruit_sorter,
            Upgrade::RoastingShed => self.roasting_shed,
            Upgrade::TastingRoom => self.tasting_room,
        }
    }

    fn upgrade_fits(&self, u: Upgrade) -> (ok: bool)
        ensures
            ok == upgrade_fits(self@, u),
    {
        let cost = upgrade_price(u);
        self.has_upgrade(u) || self.money < cost || (fits32(self.daily_expenses as i64 + cost as i64)
            && fits32(self.reputation as i64 + 1))
    }

    /// Buys an upgrade (see `buy_upgrade_rule`).
    pub fn buy_upgrade(&mut self, u: Upgrade) -> (c: Chore)
        requires
            upgrade_fits(old(self)@, u),
        ensures
            (final(self)@, c) == buy_upgrade_rule(old(self)@, u),
    {
        let cost = upgrade_price(u);
        if self.has_upgrade(u) {
            self.refuse(ALREADY_BUILT_EN, ALREADY_BUILT_SV)
        } else if self.money < cost {
            self.refuse_price(UPGRADE_NEEDS_EN, UPGRADE_NEEDS_SV, cost)
        } else {
            self.build(u, cost)
        }
    }

    fn build(&mut self, u: Upgrade, cost: i32) -> (c: Chore)
        requires
            cost == upgrade_cost(u),
            !has_upgrade(old(self)@, u),
            old(self).money >= cost,
            upgrade_fits(old(self)@, u),
        ensures
            (final(self)@, c) == built_rule(old(self)@, u),
    {
        reveal(built_rule);
        self.money = self.money - cost;
        self.daily_expenses = self.daily_expenses + cost;
        self.reputation = self.reputation + 1;
        self.dirty_visuals = true;
        self.legal_office = self.legal_office || u == Upgrade::LegalOffice;
        self.caretaker = self.caretaker || u == Upgrade::Caretaker;
        self.fruit_sorter = self.fruit_sorter || u == Upgrade::FruitSorter;
        self.roasting_shed = self.roasting_shed || u == Upgrade::RoastingShed;
        self.tasting_room = self.tasting_room || u == Upgrade::TastingRoom;
        let (en, sv) = built_text(u);
        self.say(en, sv);
        new_chore(effect(200, 0, StockMove::Still), false, true)
    }

    /// Office work (see `office_rule`).
    pub fn office_work(&mut self, a: Action) -> (c: Chore)
        requires
            office_fits(old(self)@, a),
        ensures
            (final(self)@, c) == office_rule(old(self)@, a),
    {
        match a {
            Action::ImproveEnclosure => {
                let cost = 45 + (self.enclosure_level as i32) * 20;
                if self.money >= cost {
                    self.improve_enclosure(cost)
                } else {
                    self.refuse_price(ENCLOSURE_NEEDS_EN, ENCLOSURE_NEEDS_SV, cost)
                }
            },
            Action::ShowPaperwork => {
                let cost = if self.legal_office {
                    8 + (self.paperwork_level as i32) * 2
                } else {
                    16 + (self.paperwork_level as i32) * 3
                };
                if self.money >= cost {
                    self.show_paperwork(cost)
                } else {
                    self.refuse(NO_PAPER_MONEY_EN, NO_PAPER_MONEY_SV)
                }
            },
            Action::BuildLegalOffice => self.buy_upgrade(Upgrade::LegalOffice),
            Action::HireCaretaker => self.buy_upgrade(Upgrade::Caretaker),
            Action::BuildFruitSorter => self.buy_upgrade(Upgrade::FruitSorter),
            Action::BuildRoastingShed => self.buy_upgrade(Upgrade::RoastingShed),
            Action::BuildTastingRoom => self.buy_upgrade(Upgrade::TastingRoom),
            _ => new_chore(effect(0, 0, StockMove::Still), false, true),
        }
    }

    fn improve_enclosure(&mut self, cost: i32) -> (c: Chore)
        requires
            old(self).money >= cost,
            fits_i32(old(self).money - cost),
            fits_i32(old(self).daily_expenses + cost),
            old(self).enclosure_level < u32::MAX,
            fits_i32(old(self).reputation + 2),
        ensures
            (final(self)@, c) == enclosed_rule(old(self)@, cost as int),
    {
        reveal(enclosed_rule);
        self.money = self.money - cost;
        self.daily_expenses = self.daily_expenses + cost;
        self.enclosure_level = self.enclosure_level + 1;
        self.reputation = self.reputation + 2;
        self.say(ENCLOSURE_EN, ENCLOSURE_SV);
        new_chore(effect(-800, 1800, StockMove::Still), false, true)
    }

    fn show_paperwork(&mut self, cost: i32) -> (c: Chore)
        requires
            old(self).money >= cost,
            fits_i32(old(self).money - cost),
            fits_i32(old(self).daily_expenses + cost),
            old(self).paperwork_level < u32::MAX,
            fits_i32(old(self).reputation + 1),
        ensures
            (final(self)@, c) == paperwork_shown_rule(old(self)@, cost as int),
    {
        reveal(paperwork_shown_rule);
        let legal = self.legal_office;
        self.money = self.money - cost;
        self.daily_expenses = self.daily_expenses + cost;
        self.paperwork_level = self.paperwork_level + 1;
        self.reputation = self.reputation + 1;
        self.dirty_visuals = true;
        self.say(PAPERWORK_EN, PAPERWORK_SV);
        let relief = 1800 + (if legal { 800 } else { 0 }) + 100 * (self.paperwork_level as i64);
        new_chore(effect(-relief, 0, StockMove::Still), false, true)
    }
}

} // verus!
