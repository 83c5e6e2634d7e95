//! What the plantation scene shows, and the clicks on it: room headings and
//! hints, the shrub and civet grids, the upgrade buildings, and when a click
//! on the scene counts.
use vstd::prelude::*;
use crate::chores::{Action, Chore, FieldReading};
use crate::estate::{roster_change, Estate, EstateView, GameScreen, RosterChange};
use crate::localization::PlantationRoom;
use crate::play::{act_fits, act_rule, select_rule};
use crate::work::{has_upgrade, Upgrade};

verus! {

/// A room's heading and subtitle.
pub open spec fn heading_of(room: PlantationRoom) -> (Seq<char>, Seq<char>) {
    match room {
        PlantationRoom::Sanctuary => ("SANCTUARY ROOM"@, "Soft paws, snack trays, and welfare optics."@),
        PlantationRoom::CoffeeField => ("COFFEE FIELD"@, "Fruit grows fast. So do questions."@),
        PlantationRoom::Roastery => ("ROASTERY"@, "Artisanal smoke with unfortunate silhouettes."@),
        PlantationRoom::PaperworkOffice => ("PAPERWORK OFFICE"@, "Receipts, permits, hoofprints, and strategic calm."@),
    }
}

/// The hint at the bottom of a room.
pub open spec fn hint_of(room: PlantationRoom) -> Seq<char> {
    match room {
        PlantationRoom::Sanctuary => "Click a civet to feed, pet, inspect notes, and build affection."@,
        PlantationRoom::CoffeeField => "Best buttons here: Plant coffee, Harvest fruit, Feed civets."@,
        PlantationRoom::Roastery => "Best buttons here: Collect beans, Roast coffee, Sell coffee."@,
        PlantationRoom::PaperworkOffice => "Best buttons here: Show paperwork, build office upgrades, stay calm."@,
    }
}

/// The cells, column then row, of the first `min(count, cap)` items laid out
/// row by row in rows of `columns`.
pub open spec fn grid(count: nat, cap: nat, columns: nat) -> Seq<(u32, u32)> {
    let n = if count <= cap { count } else { cap };
    Seq::new(n, |i: int| ((i % columns as int) as u32, (i / columns as int) as u32))
}

/// The shrubs drawn on the field: at most 36, twelve to a row.
pub open spec fn shrub_cells(plants: nat) -> Seq<(u32, u32)> {
    grid(plants, 36, 12)
}

/// The civets drawn in the sanctuary: at most ten, five to a row; the cell
/// at position `i` is civet `i`.
pub open spec fn civet_cells(civets: nat) -> Seq<(u32, u32)> {
    grid(civets, 10, 5)
}

/// The upgrades built, in the order their buildings stand.
pub open spec fn buildings_of(v: EstateView) -> Seq<Upgrade> {
    (if v.legal_office { seq![Upgrade::LegalOffice] } else { Seq::empty() })
        + (if v.caretaker { seq![Upgrade::Caretaker] } else { Seq::empty() })
        + (if v.fruit_sorter { seq![Upgrade::FruitSorter] } else { Seq::empty() })
        + (if v.roasting_shed { seq![Upgrade::RoastingShed] } else { Seq::empty() })
        + (if v.tasting_room { seq![Upgrade::TastingRoom] } else { Seq::empty() })
}

/// The sign on an upgrade's building.
pub open spec fn sign_of(u: Upgrade) -> Seq<char> {
    match u {
        Upgrade::LegalOffice => "LEGAL"@,
        Upgrade::Caretaker => "CARE"@,
        Upgrade::FruitSorter => "SORT"@,
        Upgrade::RoastingShed => "ROAST"@,
        Upgrade::TastingRoom => "TASTE"@,
    }
}

/// A click on the scene counts only while the game runs with nothing
/// waiting: no inspection, letter, offer, day report or final result.
pub open spec fn scene_clickable(v: EstateView) -> bool {
    &&& v.screen == GameScreen::Playing
    &&& !v.inspection
    &&& v.event is None
    &&& v.pending_order is None
    &&& v.day_report is None
    &&& v.game_result is None
}

/// A room's heading and subtitle (see `heading_of`).
pub fn room_heading(room: PlantationRoom) -> (r: (&'static str, &'static str))
    ensures
        (r.0@, r.1@) == heading_of(room),
{
    match room {
        PlantationRoom::Sanctuary => ("SANCTUARY ROOM", "Soft paws, snack trays, and welfare optics."),
        PlantationRoom::CoffeeField => ("COFFEE FIELD", "Fruit grows fast. So do questions."),
        PlantationRoom::Roastery => ("ROASTERY", "Artisanal smoke with unfortunate silhouettes."),
        PlantationRoom::PaperworkOffice => ("PAPERWORK OFFICE", "Receipts, permits, hoofprints, and strategic calm."),
    }
}

/// The hint at the bottom of a room (see `hint_of`).
pub fn room_hint(room: PlantationRoom) -> (s: &'static str)
    ensures
        s@ == hint_of(room),
{
    match room {
        PlantationRoom::Sanctuary => "Click a civet to feed, pet, inspect notes, and build affection.",
        PlantationRoom::CoffeeField => "Best buttons here: Plant coffee, Harvest fruit, Feed civets.",
        PlantationRoom::Roastery => "Best buttons here: Collect beans, Roast coffee, Sell coffee.",
        PlantationRoom::PaperworkOffice => "Best buttons here: Show paperwork, build office upgrades, stay calm.",
    }
}

/// Lays out items row by row (see `grid`).
pub fn grid_cells(count: u32, cap: u32, columns: u32) -> (cells: Vec<(u32, u32)>)
    requires
        columns > 0,
    ensures
        cells@ == grid(count as nat, cap as nat, columns as nat),
{
    let n = if count <= cap { count } else { cap };
    let mut cells: Vec<(u32, u32)> = Vec::new();
    let mut i: u32 = 0;
    while i < n
        invariant
            i <= n,
            n == (if count <= cap { count } else { cap }),
            columns > 0,
            cells@.len() == i,
            forall|k: int| 0 <= k < i ==> #[trigger] cells@[k] == ((k % columns as int) as u32, (k / columns as int) as u32),
        decreases n - i,
    {
        cells.push((i % columns, i / columns));
        i = i + 1;
    }
    assert(cells@ =~= grid(count as nat, cap as nat, columns as nat));
    cells
}

/// The shrubs drawn on the field (see `shrub_cells`).
pub fn shrub_grid(plants: u32) -> (cells: Vec<(u32, u32)>)
    ensures
        cells@ == shrub_cells(plants as nat),
{
    grid_cells(plants, 36, 12)
}

/// The civets drawn in the sanctuary (see `civet_cells`).
pub fn civet_grid(civets: u32) -> (cells: Vec<(u32, u32)>)
    ensures
        cells@ == civet_cells(civets as nat),
{
    grid_cells(civets, 10, 5)
}

/// The sign on an upgrade's building (see `sign_of`).
pub fn building_sign(u: Upgrade) -> (s: &'static str)
    ensures
        s@ == sign_of(u),
{
    match u {
        Upgrade::LegalOffice => "LEGAL",
        Upgrade::Caretaker => "CARE",
        Upgrade::FruitSorter => "SORT",
        Upgrade::RoastingShed => "ROAST",
        Upgrade::TastingRoom => "TASTE",
    }
}

impl Estate {
    /// The upgrades built, in the order their buildings stand (see
    /// `buildings_of`).
    pub fn buildings(&self) -> (b: Vec<Upgrade>)
        ensures
            b@ == buildings_of(self@),
    {
        let mut b: Vec<Upgrade> = Vec::new();
        if self.legal_office {
            b.push(Upgrade::LegalOffice);
        }
        assert(b@ =~= (if self.legal_office { seq![Upgrade::LegalOffice] } else { Seq::empty() }));
        let ghost s1 = b@;
        if self.caretaker {
            b.push(Upgrade::Caretaker);
        }
        assert(b@ =~= s1 + (if self.caretaker { seq![Upgrade::Caretaker] } else { Seq::empty() }));
        let ghost s2 = b@;
        if self.fruit_sorter {
            b.push(Upgrade::FruitSorter);
        }
        assert(b@ =~= s2 + (if self.fruit_sorter { seq![Upgrade::FruitSorter] } else { Seq::empty() }));
        let ghost s3 = b@;
        if self.roasting_shed {
            b.push(Upgrade::RoastingShed);
        }
        assert(b@ =~= s3 + (if self.roasting_shed { seq![Upgrade::RoastingShed] } else { Seq::empty() }));
        let ghost s4 = b@;
        if self.tasting_room {
            b.push(Upgrade::TastingRoom);
        }
        assert(b@ =~= s4 + (if self.tasting_room { seq![Upgrade::TastingRoom] } else { Seq::empty() }));
        b
    }

    /// Whether the scene must be redrawn; the flag is cleared.
    pub fn take_dirty_visuals(&mut self) -> (dirty: bool)
        ensures
            dirty == old(self).dirty_visuals,
            final(self)@ == (EstateView { dirty_visuals: false, ..old(self)@ }),
    {
        let dirty = self.dirty_visuals;
        self.dirty_visuals = false;
        dirty
    }

    /// Whether a click on the scene counts (see `scene_clickable`).
    pub fn scene_clickable(&self) -> (b: bool)
        ensures
            b == scene_clickable(self@),
    {
        self.screen == GameScreen::Playing && !self.inspection && self.event.is_none()
            && self.pending_order.is_none() && self.day_report.is_none() && self.game_result.is_none()
    }

    /// A click on civet `index` in the sanctuary: when clicks count, it is
    /// selected (see `select_rule`) and the scene redrawn. Returns `None` when
    /// the click did not count, else how the roster changed and whether the
    /// index named a civet.
    pub fn click_civet(&mut self, index: usize) -> (r: Option<(RosterChange, bool)>)
        requires
            old(self).civets < usize::MAX,
        ensures
            !scene_clickable(old(self)@) ==> r is None && final(self)@ == old(self)@,
            scene_clickable(old(self)@) ==> r is Some && final(self)@ == (EstateView {
                dirty_visuals: true,
                ..select_rule(old(self)@, index)
            }) && r.unwrap().0 == roster_change(old(self)@),
    {
        if !self.scene_clickable() {
            return None;
        }
        let r = self.select_civet_by_index(index);
        self.dirty_visuals = true;
        Some(r)
    }

    /// A click on a working spot of the scene runs its action when clicks
    /// count. Returns `None` when the click did not count.
    pub fn click_scene(&mut self, a: Action, r: FieldReading) -> (c: Option<Chore>)
        requires
            act_fits(old(self)@, a, r),
        ensures
            !scene_clickable(old(self)@) ==> c is None && final(self)@ == old(self)@,
            scene_clickable(old(self)@) ==> c == Some(act_rule(old(self)@, a, r).1) && final(self)@ == act_rule(
                old(self)@,
                a,
                r,
            ).0,
    {
        if !self.scene_clickable() {
            return None;
        }
        Some(self.run_action(a, r))
    }
}

} // verus!
