//! The player's actions and which of them the plantation offers.
use vstd::prelude::*;

verus! {

#[derive(Clone, Copy, Debug, PartialEq, Eq, Structural)]
pub enum EutherCivetAction {
    PlantCoffee,
    HarvestFruit,
    FeedCivets,
    CollectBeans,
    RoastCoffee,
    SellCoffee,
    ImproveEnclosure,
    ShowPaperwork,
    InspectPaperwork,
    InspectTasting,
    InspectGoat,
}

/// The three answers to Operation Bitter Bean.
pub open spec fn answers_inspection(a: EutherCivetAction) -> bool {
    match a {
        EutherCivetAction::InspectPaperwork
        | EutherCivetAction::InspectTasting
        | EutherCivetAction::InspectGoat => true,
        _ => false,
    }
}

impl EutherCivetAction {
    pub fn is_inspection_action(self) -> (b: bool)
        ensures
            b == answers_inspection(self),
    {
        match self {
            EutherCivetAction::InspectPaperwork
            | EutherCivetAction::InspectTasting
            | EutherCivetAction::InspectGoat => true,
            _ => false,
        }
    }
}

/// The actions offered, in button order: the three answers during an
/// inspection, the eight plantation chores otherwise.
pub open spec fn offered(inspection: bool) -> Seq<EutherCivetAction> {
    if inspection {
        seq![
            EutherCivetAction::InspectPaperwork,
            EutherCivetAction::InspectTasting,
            EutherCivetAction::InspectGoat,
        ]
    } else {
        seq![
            EutherCivetAction::PlantCoffee,
            EutherCivetAction::HarvestFruit,
            EutherCivetAction::FeedCivets,
            EutherCivetAction::CollectBeans,
            EutherCivetAction::RoastCoffee,
            EutherCivetAction::SellCoffee,
            EutherCivetAction::ImproveEnclosure,
            EutherCivetAction::ShowPaperwork,
        ]
    }
}

pub fn available_actions(inspection: bool) -> (actions: Vec<EutherCivetAction>)
    ensures
        actions@ == offered(inspection),
{
    if inspection {
        return vec![
            EutherCivetAction::InspectPaperwork,
            EutherCivetAction::InspectTasting,
            EutherCivetAction::InspectGoat,
        ];
    }
    vec![
        EutherCivetAction::PlantCoffee,
        EutherCivetAction::HarvestFruit,
        EutherCivetAction::FeedCivets,
        EutherCivetAction::CollectBeans,
        EutherCivetAction::RoastCoffee,
        EutherCivetAction::SellCoffee,
        EutherCivetAction::ImproveEnclosure,
        EutherCivetAction::ShowPaperwork,
    ]
}

/// An action is offered exactly when it matches the inspection mode: the
/// answers during an inspection, every other action outside one; each appears once.
pub proof fn lemma_offered_matches_mode(inspection: bool, a: EutherCivetAction)
    ensures
        offered(inspection).contains(a) <==> answers_inspection(a) == inspection,
        offered(inspection).no_duplicates(),
{
    let s = offered(inspection);
    if answers_inspection(a) == inspection {
        let i: int = match a {
            EutherCivetAction::PlantCoffee => 0,
            EutherCivetAction::HarvestFruit => 1,
            EutherCivetAction::FeedCivets => 2,
            EutherCivetAction::CollectBeans => 3,
            EutherCivetAction::RoastCoffee => 4,
            EutherCivetAction::SellCoffee => 5,
            EutherCivetAction::ImproveEnclosure => 6,
            EutherCivetAction::ShowPaperwork => 7,
            EutherCivetAction::InspectPaperwork => 0,
            EutherCivetAction::InspectTasting => 1,
            EutherCivetAction::InspectGoat => 2,
        };
        assert(s[i] == a);
    }
    assert forall|i: int, j: int| 0 <= i < s.len() && 0 <= j < s.len() && i != j implies s[i]
        != s[j] by {}
}

} // verus!
