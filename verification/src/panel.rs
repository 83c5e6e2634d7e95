//! What the control panel shows: button labels, which buttons can run and
//! why not, the status lines, and which overlays are up.
use vstd::prelude::*;
use crate::chores::{Action, FieldReading};
use crate::estate::{Estate, EstateView, GameScreen, ResultView, ToolGroup, GameResult};
use crate::events::fits_i32;
use crate::localization::{room_name, room_title, Language, PlantationRoom};
use crate::text::{decimal, decimal_text, digit_char, number_line};
use crate::work::{enclosure_cost, fits32, has_upgrade, paperwork_cost, upgrade_cost, upgrade_price, Upgrade};

verus! {

/// The stock figures a label shows, rounded by the host: the coffee fruit
/// a harvest would bring, the fruit on hand, and the processed beans in
/// tenths.
#[derive(Clone, Copy, Debug, PartialEq, Eq, Structural)]
pub struct LabelFigures {
    pub harvest: u32,
    pub fruit: u32,
    pub beans_tenths: u32,
}

/// A figure in tenths written with one decimal.
pub open spec fn tenths(t: nat) -> Seq<char> {
    decimal((t / 10) as int) + seq!['.', digit_char(t % 10)]
}

/// The upgrade a purchase button buys.
pub open spec fn upgrade_of(a: Action) -> Upgrade {
    match a {
        Action::HireCaretaker => Upgrade::Caretaker,
        Action::BuildFruitSorter => Upgrade::FruitSorter,
        Action::BuildRoastingShed => Upgrade::RoastingShed,
        Action::BuildTastingRoom => Upgrade::TastingRoom,
        _ => Upgrade::LegalOffice,
    }
}

pub open spec fn is_purchase(a: Action) -> bool {
    match a {
        Action::BuildLegalOffice
        | Action::HireCaretaker
        | Action::BuildFruitSorter
        | Action::BuildRoastingShed
        | Action::BuildTastingRoom => true,
        _ => false,
    }
}

/// The name of an upgrade on its button.
pub open spec fn upgrade_title(u: Upgrade) -> Seq<char> {
    match u {
        Upgrade::LegalOffice => "Legal office"@,
        Upgrade::Caretaker => "Caretaker"@,
        Upgrade::FruitSorter => "Fruit sorter"@,
        Upgrade::RoastingShed => "Roasting shed"@,
        Upgrade::TastingRoom => "Tasting room"@,
    }
}

/// An upgrade's button: built, or its price.
pub open spec fn upgrade_label(name: Seq<char>, cost: int, bought: bool) -> Seq<char> {
    if bought {
        name + " (built)"@
    } else {
        name + " ($"@ + decimal(cost) + ")"@
    }
}

/// A room's button; the current room is starred.
pub open spec fn room_button(room: PlantationRoom, current: PlantationRoom) -> Seq<char> {
    let name = room_title(room, Language::English);
    if room == current {
        name + " *"@
    } else {
        name
    }
}

/// The name of a tool group.
pub open spec fn group_title(g: ToolGroup) -> Seq<char> {
    match g {
        ToolGroup::Care => "Care"@,
        ToolGroup::Field => "Field"@,
        ToolGroup::Production => "Production"@,
        ToolGroup::Compliance => "Compliance"@,
        ToolGroup::Upgrades => "Upgrades"@,
        ToolGroup::System => "System"@,
    }
}

/// A tool group's button: open (`v`) or closed (`>`).
pub open spec fn group_button(g: ToolGroup, active: ToolGroup) -> Seq<char> {
    if g == active {
        "v "@ + group_title(g)
    } else {
        "> "@ + group_title(g)
    }
}

/// Whether a tool-group button is the open group.
pub open spec fn is_active_group(a: Action, active: ToolGroup) -> bool {
    match a {
        Action::ShowCareTools => active == ToolGroup::Care,
        Action::ShowFieldTools => active == ToolGroup::Field,
        Action::ShowProductionTools => active == ToolGroup::Production,
        Action::ShowComplianceTools => active == ToolGroup::Compliance,
        Action::ShowUpgradeTools => active == ToolGroup::Upgrades,
        Action::ShowSystemTools => active == ToolGroup::System,
        _ => false,
    }
}

/// The labels that never change.
pub open spec fn fixed_label(a: Action) -> Seq<char> {
    match a {
        Action::PlantCoffee => "Plant coffee ($14)"@,
        Action::FeedCivets => "Feed civets (needs fruit)"@,
        Action::CollectBeans => "Collect beans"@,
        Action::DeliverOrder => "Deliver order"@,
        Action::PickUpBeansToInventory => "Pick up beans"@,
        Action::Save => "Save"@,
        Action::Load => "Load"@,
        Action::FeedSelectedCivet => "Feed fruit tray"@,
        Action::PetSelectedCivet => "Pet gently"@,
        Action::InspectSelectedCivet => "Inspect notes"@,
        Action::UseTinyBrush => "Tiny brush"@,
        Action::UseRibbonCollar => "Ribbon collar"@,
        Action::UseFruitPuzzle => "Fruit puzzle"@,
        _ => "Action"@,
    }
}

/// The room a move button leads to, if it is one.
pub open spec fn move_target(a: Action) -> Option<PlantationRoom> {
    match a {
        Action::GoSanctuary => Some(PlantationRoom::Sanctuary),
        Action::GoCoffeeField => Some(PlantationRoom::CoffeeField),
        Action::GoRoastery => Some(PlantationRoom::Roastery),
        Action::GoPaperworkOffice => Some(PlantationRoom::PaperworkOffice),
        _ => None,
    }
}

/// The tool group a tool-group button opens, if it is one.
pub open spec fn group_target(a: Action) -> Option<ToolGroup> {
    match a {
        Action::ShowCareTools => Some(ToolGroup::Care),
        Action::ShowFieldTools => Some(ToolGroup::Field),
        Action::ShowProductionTools => Some(ToolGroup::Production),
        Action::ShowComplianceTools => Some(ToolGroup::Compliance),
        Action::ShowUpgradeTools => Some(ToolGroup::Upgrades),
        Action::ShowSystemTools => Some(ToolGroup::System),
        _ => None,
    }
}

/// The label of an action's button.
pub open spec fn label_text(a: Action, v: EstateView, f: LabelFigures) -> Seq<char> {
    if let Some(room) = move_target(a) {
        room_button(room, v.current_room)
    } else if let Some(g) = group_target(a) {
        group_button(g, v.active_tool_group)
    } else if is_purchase(a) {
        let u = upgrade_of(a);
        upgrade_label(upgrade_title(u), upgrade_cost(u), has_upgrade(v, u))
    } else {
        match a {
            Action::HarvestFruit => "Harvest fruit (+"@ + decimal(f.harvest as int) + ")"@,
            Action::RoastCoffee => "Roast coffee ("@ + (if v.roasting_shed { "96%"@ } else { "82%"@ }) + " yield)"@,
            Action::SellCoffee => "Sell coffee "@ + if v.tasting_room { "+ tasting"@ } else { ""@ },
            Action::ToggleInventory => if v.inventory_open {
                "Close sack"@
            } else {
                "Inventory sack ("@ + decimal(f.fruit as int) + " fruit, "@ + tenths(f.beans_tenths as nat)
                    + " beans)"@
            },
            Action::GiveFruitFromInventory => "Give fruit ("@ + decimal(f.fruit as int) + ")"@,
            Action::ImproveEnclosure => "Improve enclosure ($"@ + decimal(enclosure_cost(v.enclosure_level)) + ")"@,
            Action::ShowPaperwork => "Show paperwork ($"@ + decimal(paperwork_cost(v.paperwork_level, v.legal_office))
                + ")"@,
            _ => fixed_label(a),
        }
    }
}

/// The enclosure and paperwork prices fit in an `i32`, as the panel works
/// them out.
pub open spec fn prices_fit(v: EstateView) -> bool {
    &&& fits_i32((v.enclosure_level as i32) * 20)
    &&& fits_i32(enclosure_cost(v.enclosure_level))
    &&& fits_i32((v.paperwork_level as i32) * if v.legal_office { 2int } else { 3 })
    &&& fits_i32(paperwork_cost(v.paperwork_level, v.legal_office))
}

/// Whether an action's button can run now.
pub open spec fn runnable(v: EstateView, a: Action, r: FieldReading) -> bool {
    match a {
        Action::PlantCoffee => v.money >= 14,
        Action::HarvestFruit => v.coffee_plants > 0,
        Action::FeedCivets => r.fruit_on_hand,
        Action::RoastCoffee => r.beans_for_batch,
        Action::SellCoffee => r.sale is Some,
        Action::DeliverOrder => v.active_order is Some && r.order_covered,
        Action::GiveFruitFromInventory => v.current_room == PlantationRoom::Sanctuary && r.fruit_in_sack,
        Action::PickUpBeansToInventory => v.current_room == PlantationRoom::Sanctuary,
        Action::ImproveEnclosure => v.money >= enclosure_cost(v.enclosure_level),
        Action::ShowPaperwork => v.money >= paperwork_cost(v.paperwork_level, v.legal_office),
        Action::BuildLegalOffice
        | Action::HireCaretaker
        | Action::BuildFruitSorter
        | Action::BuildRoastingShed
        | Action::BuildTastingRoom => !has_upgrade(v, upgrade_of(a)) && v.money >= upgrade_cost(upgrade_of(a)),
        Action::FeedSelectedCivet => v.selected_civet is Some && r.fruit_for_tray,
        Action::PetSelectedCivet
        | Action::InspectSelectedCivet
        | Action::UseTinyBrush
        | Action::UseRibbonCollar
        | Action::UseFruitPuzzle
        | Action::CloseAnimalPanel => v.selected_civet is Some,
        Action::GoSanctuary
        | Action::GoCoffeeField
        | Action::GoRoastery
        | Action::GoPaperworkOffice
        | Action::ShowCareTools
        | Action::ShowFieldTools
        | Action::ShowProductionTools
        | Action::ShowComplianceTools
        | Action::ShowUpgradeTools
        | Action::ShowSystemTools => v.screen == GameScreen::Playing,
        Action::AcceptOrder | Action::DeclineOrder => v.pending_order is Some,
        Action::EventOptionA | Action::EventOptionB | Action::EventOptionC => v.event is Some,
        Action::InspectPaperwork | Action::InspectTasting | Action::InspectGoat => v.inspection,
        _ => true,
    }
}

/// Why a button cannot run, for the log.
pub open spec fn unavailable_text(a: Action, v: EstateView) -> Seq<char> {
    match a {
        Action::PlantCoffee => "Not enough money to plant coffee."@,
        Action::FeedCivets => "No coffee fruit available for feeding."@,
        Action::RoastCoffee => "Not enough processed beans to roast."@,
        Action::SellCoffee => "No roasted coffee ready to sell."@,
        Action::DeliverOrder => if v.active_order is None {
            "No active order to deliver."@
        } else {
            "Not enough roasted coffee for the active order."@
        },
        Action::GiveFruitFromInventory => "Walk to the civets with coffee fruit in the sack."@,
        Action::PickUpBeansToInventory => "Walk to the civet enclosure work area."@,
        Action::ShowPaperwork => "Not enough money for paperwork."@,
        Action::ImproveEnclosure => "Not enough money for enclosure work."@,
        Action::BuildLegalOffice
        | Action::HireCaretaker
        | Action::BuildFruitSorter
        | Action::BuildRoastingShed
        | Action::BuildTastingRoom => "Upgrade is unavailable or already built."@,
        Action::FeedSelectedCivet => if v.selected_civet is None {
            "Select a civet first."@
        } else {
            "A personal fruit tray needs 2 coffee fruit."@
        },
        Action::PetSelectedCivet
        | Action::InspectSelectedCivet
        | Action::CloseAnimalPanel
        | Action::UseTinyBrush
        | Action::UseRibbonCollar
        | Action::UseFruitPuzzle => "Select a civet first."@,
        _ => "That action is unavailable right now."@,
    }
}

fn upgrade_of_action(a: Action) -> (u: Upgrade)
    ensures
        u == upgrade_of(a),
{
    match a {
        Action::HireCaretaker => Upgrade::Caretaker,
        Action::BuildFruitSorter => Upgrade::FruitSorter,
        Action::BuildRoastingShed => Upgrade::RoastingShed,
        Action::BuildTastingRoom => Upgrade::TastingRoom,
        _ => Upgrade::LegalOffice,
    }
}

fn is_purchase_action(a: Action) -> (b: bool)
    ensures
        b == is_purchase(a),
{
    match a {
        Action::BuildLegalOffice
        | Action::HireCaretaker
        | Action::BuildFruitSorter
        | Action::BuildRoastingShed
        | Action::BuildTastingRoom => true,
        _ => false,
    }
}

fn upgrade_name(u: Upgrade) -> (s: &'static str)
    ensures
        s@ == upgrade_title(u),
{
    match u {
        Upgrade::LegalOffice => "Legal office",
        Upgrade::Caretaker => "Caretaker",
        Upgrade::FruitSorter => "Fruit sorter",
        Upgrade::RoastingShed => "Roasting shed",
        Upgrade::TastingRoom => "Tasting room",
    }
}

/// An upgrade's button (see `upgrade_label`).
pub fn upgrade_button(name: &str, cost: i32, bought: bool) -> (s: String)
    ensures
        s@ == upgrade_label(name@, cost as int, bought),
{
    if bought {
        let mut s = name.to_owned();
        s.append(" (built)");
        s
    } else {
        let mut s = name.to_owned();
        s.append(" ($");
        let n = decimal_text(cost as i64);
        s.append(n.as_str());
        s.append(")");
        s
    }
}

/// A room's button (see `room_button`).
pub fn room_button_label(room: PlantationRoom, current: PlantationRoom) -> (s: String)
    ensures
        s@ == room_button(room, current),
{
    let mut s = room_name(room, Language::English).to_owned();
    if room == current {
        s.append(" *");
    }
    s
}

fn group_name(g: ToolGroup) -> (s: &'static str)
    ensures
        s@ == group_title(g),
{
    match g {
        ToolGroup::Care => "Care",
        ToolGroup::Field => "Field",
        ToolGroup::Production => "Production",
        ToolGroup::Compliance => "Compliance",
        ToolGroup::Upgrades => "Upgrades",
        ToolGroup::System => "System",
    }
}

/// A tool group's button (see `group_button`).
pub fn group_button_label(g: ToolGroup, active: ToolGroup) -> (s: String)
    ensures
        s@ == group_button(g, active),
{
    let mut s = (if g == active { "v " } else { "> " }).to_owned();
    s.append(group_name(g));
    s
}

/// Whether a tool-group button is the open group.
pub fn is_active_group_action(a: Action, active: ToolGroup) -> (b: bool)
    ensures
        b == is_active_group(a, active),
{
    match a {
        Action::ShowCareTools => active == ToolGroup::Care,
        Action::ShowFieldTools => active == ToolGroup::Field,
        Action::ShowProductionTools => active == ToolGroup::Production,
        Action::ShowComplianceTools => active == ToolGroup::Compliance,
        Action::ShowUpgradeTools => active == ToolGroup::Upgrades,
        Action::ShowSystemTools => active == ToolGroup::System,
        _ => false,
    }
}

fn fixed_text(a: Action) -> (s: &'static str)
    ensures
        s@ == fixed_label(a),
{
    match a {
        Action::PlantCoffee => "Plant coffee ($14)",
        Action::FeedCivets => "Feed civets (needs fruit)",
        Action::CollectBeans => "Collect beans",
        Action::DeliverOrder => "Deliver order",
        Action::PickUpBeansToInventory => "Pick up beans",
        Action::Save => "Save",
        Action::Load => "Load",
        Action::FeedSelectedCivet => "Feed fruit tray",
        Action::PetSelectedCivet => "Pet gently",
        Action::InspectSelectedCivet => "Inspect notes",
        Action::UseTinyBrush => "Tiny brush",
        Action::UseRibbonCollar => "Ribbon collar",
        Action::UseFruitPuzzle => "Fruit puzzle",
        _ => "Action",
    }
}

fn move_target_of(a: Action) -> (r: Option<PlantationRoom>)
    ensures
        r == move_target(a),
{
    match a {
        Action::GoSanctuary => Some(PlantationRoom::Sanctuary),
        Action::GoCoffeeField => Some(PlantationRoom::CoffeeField),
        Action::GoRoastery => Some(PlantationRoom::Roastery),
        Action::GoPaperworkOffice => Some(PlantationRoom::PaperworkOffice),
        _ => None,
    }
}

fn group_target_of(a: Action) -> (r: Option<ToolGroup>)
    ensures
        r == group_target(a),
{
    match a {
        Action::ShowCareTools => Some(ToolGroup::Care),
        Action::ShowFieldTools => Some(ToolGroup::Field),
        Action::ShowProductionTools => Some(ToolGroup::Production),
        Action::ShowComplianceTools => Some(ToolGroup::Compliance),
        Action::ShowUpgradeTools => Some(ToolGroup::Upgrades),
        Action::ShowSystemTools => Some(ToolGroup::System),
        _ => None,
    }
}

/// A figure in tenths written with one decimal (see `tenths`).
pub fn tenths_text(t: u32) -> (s: String)
    ensures
        s@ == tenths(t as nat),
{
    let whole = t / 10;
    let mut s = decimal_text(whole as i64);
    let d = digit_text(t % 10);
    proof {
        reveal_strlit(".");
    }
    s.append(".");
    s.append(d);
    assert(s@ =~= tenths(t as nat));
    s
}

fn digit_text(d: u32) -> (s: &'static str)
    requires
        d < 10,
    ensures
        s@ == seq![digit_char(d as nat)],
{
    proof {
        reveal_strlit("0");
        reveal_strlit("1");
        reveal_strlit("2");
        reveal_strlit("3");
        reveal_strlit("4");
        reveal_strlit("5");
        reveal_strlit("6");
        reveal_strlit("7");
        reveal_strlit("8");
        reveal_strlit("9");
    }
    if d == 0 {
        "0"
    } else if d == 1 {
        "1"
    } else if d == 2 {
        "2"
    } else if d == 3 {
        "3"
    } else if d == 4 {
        "4"
    } else if d == 5 {
        "5"
    } else if d == 6 {
        "6"
    } else if d == 7 {
        "7"
    } else if d == 8 {
        "8"
    } else {
        "9"
    }
}

fn label_of(a: Action, e: &Estate, f: LabelFigures) -> (s: String)
    requires
        prices_fit(e@),
        move_target(a) is None,
        group_target(a) is None,
        !is_purchase(a),
    ensures
        s@ == label_text(a, e@, f),
{
    match a {
        Action::HarvestFruit => number_line("Harvest fruit (+", f.harvest as i64, ")"),
        Action::RoastCoffee => {
            let mut s = "Roast coffee (".to_owned();
            s.append(if e.roasting_shed { "96%" } else { "82%" });
            s.append(" yield)");
            s
        },
        Action::SellCoffee => {
            let mut s = "Sell coffee ".to_owned();
            s.append(if e.tasting_room { "+ tasting" } else { "" });
            s
        },
        Action::ToggleInventory => if e.inventory_open {
            "Close sack".to_owned()
        } else {
            let mut s = number_line("Inventory sack (", f.fruit as i64, " fruit, ");
            let beans = tenths_text(f.beans_tenths);
            s.append(beans.as_str());
            s.append(" beans)");
            s
        },
        Action::GiveFruitFromInventory => number_line("Give fruit (", f.fruit as i64, ")"),
        Action::ImproveEnclosure => {
            let cost = 45 + (e.enclosure_level as i32) * 20;
            number_line("Improve enclosure ($", cost as i64, ")")
        },
        Action::ShowPaperwork => {
            let cost = if e.legal_office {
                8 + (e.paperwork_level as i32) * 2
            } else {
                16 + (e.paperwork_level as i32) * 3
            };
            number_line("Show paperwork ($", cost as i64, ")")
        },
        _ => fixed_text(a).to_owned(),
    }
}

impl Estate {
    /// Whether the enclosure and paperwork prices fit (see `prices_fit`).
    pub fn prices_fit(&self) -> (ok: bool)
        ensures
            ok == prices_fit(self@),
    {
        let enclosure = (self.enclosure_level as i32) as i64 * 20;
        let paperwork = (self.paperwork_level as i32) as i64 * if self.legal_office { 2 } else { 3 };
        fits32(enclosure) && fits32(45 + enclosure) && fits32(paperwork) && fits32(
            if self.legal_office { 8 + paperwork } else { 16 + paperwork },
        )
    }

    /// The label of an action's button (see `label_text`).
    pub fn action_label(&self, a: Action, f: LabelFigures) -> (s: String)
        requires
            prices_fit(self@),
        ensures
            s@ == label_text(a, self@, f),
    {
        if let Some(room) = move_target_of(a) {
            room_button_label(room, self.current_room)
        } else if let Some(g) = group_target_of(a) {
            group_button_label(g, self.active_tool_group)
        } else if is_purchase_action(a) {
            let u = upgrade_of_action(a);
            upgrade_button(upgrade_name(u), upgrade_price(u), self.has_upgrade(u))
        } else {
            label_of(a, self, f)
        }
    }

    /// Whether an action's button can run now (see `runnable`).
    pub fn can_run(&self, a: Action, r: FieldReading) -> (b: bool)
        requires
            prices_fit(self@),
        ensures
            b == runnable(self@, a, r),
    {
        match a {
            Action::PlantCoffee => self.money >= 14,
            Action::HarvestFruit => self.coffee_plants > 0,
            Action::FeedCivets => r.fruit_on_hand,
            Action::RoastCoffee => r.beans_for_batch,
            Action::SellCoffee => r.sale.is_some(),
            Action::DeliverOrder => self.active_order.is_some() && r.order_covered,
            Action::GiveFruitFromInventory => self.current_room == PlantationRoom::Sanctuary && r.fruit_in_sack,
            Action::PickUpBeansToInventory => self.current_room == PlantationRoom::Sanctuary,
            Action::ImproveEnclosure => self.money >= 45 + (self.enclosure_level as i32) * 20,
            Action::ShowPaperwork => self.money >= if self.legal_office {
                8 + (self.paperwork_level as i32) * 2
            } else {
                16 + (self.paperwork_level as i32) * 3
            },
            Action::BuildLegalOffice
            | Action::HireCaretaker
            | Action::BuildFruitSorter
            | Action::BuildRoastingShed
            | Action::BuildTastingRoom => {
                let u = upgrade_of_action(a);
                !self.has_upgrade(u) && self.money >= upgrade_price(u)
            },
            Action::FeedSelectedCivet => self.selected_civet.is_some() && r.fruit_for_tray,
            Action::PetSelectedCivet
            | Action::InspectSelectedCivet
            | Action::UseTinyBrush
            | Action::UseRibbonCollar
            | Action::UseFruitPuzzle
            | Action::CloseAnimalPanel => self.selected_civet.is_some(),
            Action::GoSanctuary
            | Action::GoCoffeeField
            | Action::GoRoastery
            | Action::GoPaperworkOffice
            | Action::ShowCareTools
            | Action::ShowFieldTools
            | Action::ShowProductionTools
            | Action::ShowComplianceTools
            | Action::ShowUpgradeTools
            | Action::ShowSystemTools => self.screen == GameScreen::Playing,
            Action::AcceptOrder | Action::DeclineOrder => self.pending_order.is_some(),
            Action::EventOptionA | Action::EventOptionB | Action::EventOptionC => self.event.is_some(),
            Action::InspectPaperwork | Action::InspectTasting | Action::InspectGoat => self.inspection,
            _ => true,
        }
    }

    /// Why a button cannot run (see `unavailable_text`).
    pub fn unavailable_reason(&self, a: Action) -> (s: &'static str)
        ensures
            s@ == unavailable_text(a, self@),
    {
        match a {
            Action::PlantCoffee => "Not enough money to plant coffee.",
            Action::FeedCivets => "No coffee fruit available for feeding.",
            Action::RoastCoffee => "Not enough processed beans to roast.",
            Action::SellCoffee => "No roasted coffee ready to sell.",
            Action::DeliverOrder => if self.active_order.is_none() {
                "No active order to deliver."
            } else {
                "Not enough roasted coffee for the active order."
            },
            Action::GiveFruitFromInventory => "Walk to the civets with coffee fruit in the sack.",
            Action::PickUpBeansToInventory => "Walk to the civet enclosure work area.",
            Action::ShowPaperwork => "Not enough money for paperwork.",
            Action::ImproveEnclosure => "Not enough money for enclosure work.",
            Action::BuildLegalOffice
            | Action::HireCaretaker
            | Action::BuildFruitSorter
            | Action::BuildRoastingShed
            | Action::BuildTastingRoom => "Upgrade is unavailable or already built.",
            Action::FeedSelectedCivet => if self.selected_civet.is_none() {
                "Select a civet first."
            } else {
                "A personal fruit tray needs 2 coffee fruit."
            },
            Action::PetSelectedCivet
            | Action::InspectSelectedCivet
            | Action::CloseAnimalPanel
            | Action::UseTinyBrush
            | Action::UseRibbonCollar
            | Action::UseFruitPuzzle => "Select a civet first.",
            _ => "That action is unavailable right now.",
        }
    }
}

/// The short names of the upgrades built, in a fixed order.
pub open spec fn upgrade_names(v: EstateView) -> Seq<Seq<char>> {
    (if v.legal_office { seq!["legal"@] } else { Seq::empty() })
        + (if v.caretaker { seq!["caretaker"@] } else { Seq::empty() })
        + (if v.fruit_sorter { seq!["sorter"@] } else { Seq::empty() })
        + (if v.roasting_shed { seq!["roaster"@] } else { Seq::empty() })
        + (if v.tasting_room { seq!["tasting"@] } else { Seq::empty() })
}

/// Words joined by ", ".
pub open spec fn joined(words: Seq<Seq<char>>) -> Seq<char>
    decreases words.len(),
{
    if words.len() == 0 {
        Seq::empty()
    } else if words.len() == 1 {
        words[0]
    } else {
        joined(words.drop_last()) + ", "@ + words.last()
    }
}

/// The upgrades line: the names built, or "none".
pub open spec fn upgrade_summary_text(v: EstateView) -> Seq<char> {
    if upgrade_names(v).len() == 0 { "none"@ } else { joined(upgrade_names(v)) }
}

/// How many letters wait in the mailbox: an incident and an offer.
pub open spec fn letters(v: EstateView) -> int {
    (if v.event is Some { 1int } else { 0 }) + (if v.pending_order is Some { 1int } else { 0 })
}

/// The mailbox line.
pub open spec fn mailbox_text(v: EstateView) -> Seq<char> {
    "Mail "@ + decimal(letters(v))
}

/// The order line: the accepted order with its bags and due day, an offer,
/// or none.
pub open spec fn order_summary_text(v: EstateView) -> Seq<char> {
    match v.active_order {
        Some(o) => "Order "@ + decimal(o.bags as int) + ".0 by d"@ + decimal(o.due_day as int),
        None => if v.pending_order is Some { "Order offer"@ } else { "Order none"@ },
    }
}

/// The day line: the day of the week, or the final report.
pub open spec fn day_stat_text(v: EstateView) -> Seq<char> {
    if v.game_result is Some { "Final report"@ } else { "Day "@ + decimal(v.day) + "/7"@ }
}

/// Which of the two day overlays is up.
#[derive(Clone, Copy, Debug, PartialEq, Eq, Structural)]
pub enum DayModalKind {
    DayReport,
    FinalVerdict,
}

/// The overlays that are up.
#[derive(Clone, Copy, Debug, PartialEq, Eq, Structural)]
pub struct Overlays {
    /// Operation Bitter Bean and its three answers.
    pub inspection: bool,
    /// The day report, or else the final verdict.
    pub day: Option<DayModalKind>,
    /// The waiting letter, read in the paperwork office.
    pub event: bool,
    /// The waiting offer, read in the paperwork office.
    pub order: bool,
    /// The care panel of the selected civet, while the game runs.
    pub animal: bool,
    /// The menu, introduction or animal book.
    pub screen: bool,
}

/// Which overlays are up in a state.
pub open spec fn overlays_of(v: EstateView) -> Overlays {
    let office = v.screen == GameScreen::Playing && v.current_room == PlantationRoom::PaperworkOffice;
    Overlays {
        inspection: v.inspection,
        day: if v.day_report is Some {
            Some(DayModalKind::DayReport)
        } else if v.game_result is Some {
            Some(DayModalKind::FinalVerdict)
        } else {
            None
        },
        event: office && v.event is Some,
        order: office && v.pending_order is Some,
        animal: v.screen == GameScreen::Playing && !v.inspection && v.day_report is None && v.game_result is None
            && match v.selected_civet {
            Some(i) => i < v.civet_names.len(),
            None => false,
        },
        screen: v.screen != GameScreen::Playing,
    }
}

/// The memo under a day report.
pub open spec fn upkeep_memo_text(upkeep: int) -> Seq<char> {
    "Upkeep charged: $"@ + decimal(upkeep) + ". Official memo: all beans remain legally beans."@
}

/// The button under a day report.
pub open spec fn continue_text(v: EstateView) -> Seq<char> {
    if v.game_result is None { "Begin next day"@ } else { "View final verdict"@ }
}

/// The heading of the final verdict.
pub open spec fn verdict_heading_text(r: ResultView) -> Seq<char> {
    match r {
        ResultView::Won(_) => "Weekly Ruling: Operationally Legitimate"@,
        ResultView::Failed(_) => "Weekly Ruling: Board-Level Concern"@,
    }
}

/// The memo under a day report (see `upkeep_memo_text`).
pub fn upkeep_memo(upkeep: i32) -> (s: String)
    ensures
        s@ == upkeep_memo_text(upkeep as int),
{
    number_line("Upkeep charged: $", upkeep as i64, ". Official memo: all beans remain legally beans.")
}

/// The heading of the final verdict (see `verdict_heading_text`).
pub fn verdict_heading(r: &GameResult) -> (s: &'static str)
    ensures
        s@ == verdict_heading_text(r@),
{
    match r {
        GameResult::Won(_) => "Weekly Ruling: Operationally Legitimate",
        GameResult::Failed(_) => "Weekly Ruling: Board-Level Concern",
    }
}

proof fn lemma_joined_push(words: Seq<Seq<char>>, w: Seq<char>)
    ensures
        joined(words.push(w)) == if words.len() == 0 { w } else { joined(words) + ", "@ + w },
{
    assert(words.push(w).drop_last() =~= words);
}

fn push_name(s: &mut String, count: &mut usize, name: &'static str, names: Ghost<Seq<Seq<char>>>)
    requires
        old(s)@ == joined(names@),
        *old(count) == names@.len(),
        names@.len() < 5,
    ensures
        final(s)@ == joined(names@.push(name@)),
        *final(count) == names@.len() + 1,
{
    proof {
        lemma_joined_push(names@, name@);
    }
    if *count > 0 {
        s.append(", ");
    }
    s.append(name);
    *count = *count + 1;
}

impl Estate {
    /// The upgrades line (see `upgrade_summary_text`).
    pub fn upgrade_summary(&self) -> (s: String)
        ensures
            s@ == upgrade_summary_text(self@),
    {
        let mut s = String::new();
        let mut count: usize = 0;
        let ghost names: Seq<Seq<char>> = Seq::empty();
        assert(s@ =~= joined(names));
        if self.legal_office {
            push_name(&mut s, &mut count, "legal", Ghost(names));
            proof { names = names.push("legal"@); }
        }
        if self.caretaker {
            push_name(&mut s, &mut count, "caretaker", Ghost(names));
            proof { names = names.push("caretaker"@); }
        }
        if self.fruit_sorter {
            push_name(&mut s, &mut count, "sorter", Ghost(names));
            proof { names = names.push("sorter"@); }
        }
        if self.roasting_shed {
            push_name(&mut s, &mut count, "roaster", Ghost(names));
            proof { names = names.push("roaster"@); }
        }
        if self.tasting_room {
            push_name(&mut s, &mut count, "tasting", Ghost(names));
            proof { names = names.push("tasting"@); }
        }
        assert(names =~= upgrade_names(self@));
        if count == 0 {
            "none".to_owned()
        } else {
            s
        }
    }

    /// The mailbox line (see `mailbox_text`).
    pub fn mailbox_summary(&self) -> (s: String)
        ensures
            s@ == mailbox_text(self@),
    {
        let mut n: i64 = 0;
        if self.event.is_some() {
            n = n + 1;
        }
        if self.pending_order.is_some() {
            n = n + 1;
        }
        let s = number_line("Mail ", n, "");
        proof {
            reveal_strlit("");
        }
        assert(s@ =~= mailbox_text(self@));
        s
    }

    /// The order line (see `order_summary_text`).
    pub fn order_summary(&self) -> (s: String)
        ensures
            s@ == order_summary_text(self@),
    {
        match &self.active_order {
            Some(o) => {
                let mut s = number_line("Order ", o.bags as i64, ".0 by d");
                let due = decimal_text(o.due_day as i64);
                s.append(due.as_str());
                s
            },
            None => if self.pending_order.is_some() {
                "Order offer".to_owned()
            } else {
                "Order none".to_owned()
            },
        }
    }

    /// The day line (see `day_stat_text`).
    pub fn day_stat(&self) -> (s: String)
        ensures
            s@ == day_stat_text(self@),
    {
        if self.game_result.is_some() {
            "Final report".to_owned()
        } else {
            number_line("Day ", self.day as i64, "/7")
        }
    }

    /// Which overlays are up (see `overlays_of`).
    pub fn overlays(&self) -> (o: Overlays)
        ensures
            o == overlays_of(self@),
    {
        proof {
            crate::journal::lemma_lines_len(self.civet_names@);
        }
        let office = self.screen == GameScreen::Playing && self.current_room == PlantationRoom::PaperworkOffice;
        let selected = match self.selected_civet {
            Some(i) => i < self.civet_names.len(),
            None => false,
        };
        Overlays {
            inspection: self.inspection,
            day: if self.day_report.is_some() {
                Some(DayModalKind::DayReport)
            } else if self.game_result.is_some() {
                Some(DayModalKind::FinalVerdict)
            } else {
                None
            },
            event: office && self.event.is_some(),
            order: office && self.pending_order.is_some(),
            animal: self.screen == GameScreen::Playing && !self.inspection && self.day_report.is_none()
                && self.game_result.is_none() && selected,
            screen: self.screen != GameScreen::Playing,
        }
    }

    /// The button under a day report (see `continue_text`).
    pub fn continue_label(&self) -> (s: &'static str)
        ensures
            s@ == continue_text(self@),
    {
        if self.game_result.is_none() { "Begin next day" } else { "View final verdict" }
    }
}

/// The buttons of the menu, introduction and animal book screens.
pub open spec fn screen_buttons_of(screen: GameScreen) -> Seq<(Action, Seq<char>)> {
    match screen {
        GameScreen::MainMenu => seq![
            (Action::StartGame, "Start plantation"@),
            (Action::ShowIntro, "What is this company?"@),
            (Action::ShowAnimalBook, "Meet the animals"@),
        ],
        GameScreen::Intro => seq![
            (Action::StartGame, "Start plantation"@),
            (Action::ShowAnimalBook, "Meet the animals"@),
            (Action::BackToMenu, "Back to menu"@),
        ],
        GameScreen::AnimalBook => seq![
            (Action::StartGame, "Start plantation"@),
            (Action::ShowIntro, "Company mission"@),
            (Action::BackToMenu, "Back to menu"@),
        ],
        GameScreen::Playing => Seq::empty(),
    }
}

/// The three answers offered during Operation Bitter Bean.
pub open spec fn inspection_buttons_of() -> Seq<(Action, Seq<char>)> {
    seq![
        (Action::InspectPaperwork, "Show paperwork"@),
        (Action::InspectTasting, "Offer coffee tasting"@),
        (Action::InspectGoat, "Blame the goat"@),
    ]
}

/// The buttons of the care panel.
pub open spec fn care_buttons_of() -> Seq<(Action, Seq<char>)> {
    seq![
        (Action::FeedSelectedCivet, "Feed fruit tray"@),
        (Action::PetSelectedCivet, "Pet gently"@),
        (Action::InspectSelectedCivet, "Inspect notes"@),
        (Action::UseTinyBrush, "Tiny brush"@),
        (Action::UseRibbonCollar, "Ribbon collar"@),
        (Action::UseFruitPuzzle, "Fruit puzzle"@),
        (Action::CloseAnimalPanel, "Close"@),
    ]
}

/// The buttons under an offer.
pub open spec fn offer_buttons_of() -> Seq<(Action, Seq<char>)> {
    seq![(Action::AcceptOrder, "Accept contract"@), (Action::DeclineOrder, "Decline politely"@)]
}

/// The heading of a letter.
pub open spec fn letter_heading_text(title: Seq<char>) -> Seq<char> {
    "Mailbox: "@ + title
}

/// The text of an offer; the risk is in tenths of a point of suspicion, as
/// the host rounds it.
pub open spec fn offer_text(o: crate::estate::OrderView, risk_tenths: nat) -> Seq<char> {
    o.client + " wants "@ + decimal(o.bags as int) + ".0 roasted bags by day "@ + decimal(o.due_day as int)
        + ". Payout $"@ + decimal(o.payout as int) + ", reputation +"@ + decimal(o.reputation_reward as int)
        + ", suspicion +"@ + tenths(risk_tenths) + "%.\nThe letter waits in the mailbox until its due day."@
}

fn push_button(v: &mut Vec<(Action, &'static str)>, a: Action, s: &'static str)
    ensures
        final(v)@ == old(v)@.push((a, s)),
{
    v.push((a, s));
}

/// Views of a list of buttons, label by its text.
pub open spec fn button_views(b: Seq<(Action, &'static str)>) -> Seq<(Action, Seq<char>)> {
    b.map_values(|p: (Action, &'static str)| (p.0, p.1@))
}

/// The buttons of a screen (see `screen_buttons_of`).
pub fn screen_buttons(screen: GameScreen) -> (b: Vec<(Action, &'static str)>)
    ensures
        button_views(b@) == screen_buttons_of(screen),
{
    let mut b: Vec<(Action, &'static str)> = Vec::new();
    match screen {
        GameScreen::MainMenu => {
            push_button(&mut b, Action::StartGame, "Start plantation");
            push_button(&mut b, Action::ShowIntro, "What is this company?");
            push_button(&mut b, Action::ShowAnimalBook, "Meet the animals");
        },
        GameScreen::Intro => {
            push_button(&mut b, Action::StartGame, "Start plantation");
            push_button(&mut b, Action::ShowAnimalBook, "Meet the animals");
            push_button(&mut b, Action::BackToMenu, "Back to menu");
        },
        GameScreen::AnimalBook => {
            push_button(&mut b, Action::StartGame, "Start plantation");
            push_button(&mut b, Action::ShowIntro, "Company mission");
            push_button(&mut b, Action::BackToMenu, "Back to menu");
        },
        GameScreen::Playing => {},
    }
    assert(button_views(b@) =~= screen_buttons_of(screen));
    b
}

/// The three answers of the inspection (see `inspection_buttons_of`).
pub fn inspection_buttons() -> (b: Vec<(Action, &'static str)>)
    ensures
        button_views(b@) == inspection_buttons_of(),
{
    let mut b: Vec<(Action, &'static str)> = Vec::new();
    push_button(&mut b, Action::InspectPaperwork, "Show paperwork");
    push_button(&mut b, Action::InspectTasting, "Offer coffee tasting");
    push_button(&mut b, Action::InspectGoat, "Blame the goat");
    assert(button_views(b@) =~= inspection_buttons_of());
    b
}

/// The buttons of the care panel (see `care_buttons_of`).
pub fn care_buttons() -> (b: Vec<(Action, &'static str)>)
    ensures
        button_views(b@) == care_buttons_of(),
{
    let mut b: Vec<(Action, &'static str)> = Vec::new();
    push_button(&mut b, Action::FeedSelectedCivet, "Feed fruit tray");
    push_button(&mut b, Action::PetSelectedCivet, "Pet gently");
    push_button(&mut b, Action::InspectSelectedCivet, "Inspect notes");
    push_button(&mut b, Action::UseTinyBrush, "Tiny brush");
    push_button(&mut b, Action::UseRibbonCollar, "Ribbon collar");
    push_button(&mut b, Action::UseFruitPuzzle, "Fruit puzzle");
    push_button(&mut b, Action::CloseAnimalPanel, "Close");
    assert(button_views(b@) =~= care_buttons_of());
    b
}

/// The buttons under an offer (see `offer_buttons_of`).
pub fn offer_buttons() -> (b: Vec<(Action, &'static str)>)
    ensures
        button_views(b@) == offer_buttons_of(),
{
    let mut b: Vec<(Action, &'static str)> = Vec::new();
    push_button(&mut b, Action::AcceptOrder, "Accept contract");
    push_button(&mut b, Action::DeclineOrder, "Decline politely");
    assert(button_views(b@) =~= offer_buttons_of());
    b
}

/// The heading of a letter (see `letter_heading_text`).
pub fn letter_heading(title: &str) -> (s: String)
    ensures
        s@ == letter_heading_text(title@),
{
    let mut s = "Mailbox: ".to_owned();
    s.append(title);
    s
}

/// The text of an offer (see `offer_text`).
pub fn offer_letter(o: &crate::estate::OrderOffer, risk_tenths: u32) -> (s: String)
    ensures
        s@ == offer_text(o@, risk_tenths as nat),
{
    let mut s = o.client.clone();
    let a = number_line(" wants ", o.bags as i64, ".0 roasted bags by day ");
    s.append(a.as_str());
    let b = number_line("", o.due_day as i64, ". Payout $");
    s.append(b.as_str());
    let c = number_line("", o.payout as i64, ", reputation +");
    s.append(c.as_str());
    let d = number_line("", o.reputation_reward as i64, ", suspicion +");
    s.append(d.as_str());
    let t = tenths_text(risk_tenths);
    s.append(t.as_str());
    s.append("%.\nThe letter waits in the mailbox until its due day.");
    proof {
        reveal_strlit("");
    }
    assert(s@ =~= offer_text(o@, risk_tenths as nat));
    s
}

} // verus!
