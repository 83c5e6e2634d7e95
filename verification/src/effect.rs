//! How a rule moves the continuous stocks and meters that the host keeps.
use vstd::prelude::*;

verus! {

/// A move of the continuous stocks whose size depends on the stocks themselves;
/// the host performs it.
#[derive(Clone, Copy, Debug, PartialEq, Eq, Structural)]
pub enum StockMove {
    /// Nothing moves.
    Still,
    /// Coffee fruit grows by `plants * 1.6`; the host logs how much.
    Harvest,
    /// `fed = min(fruit, civets * 5)` moves from fruit to civet feed, and civet
    /// happiness rises by `8 + bonus + fed * 0.25` (`bonus` is 4 with a fruit sorter).
    Feed { sorter: bool },
    /// Processed beans grow by `1 + civets * 0.35`; the host logs how much.
    Collect,
    /// `batch = min(beans, 8)` leaves the beans and `batch * yield` is roasted
    /// (`yield` is 0.96 with a roasting shed, else 0.82).
    Roast { shed: bool },
    /// `sold = min(roasted, 8)` bags leave the roasted stock; the host logs the
    /// sale with the money it brought.
    Sell,
    /// `min(roasted, n)` bags leave the roasted stock.
    TakeRoasted(u32),
    /// `min(fruit, n)` coffee fruit leave the stock.
    TakeFruit(u32),
    /// Processed beans grow by `0.7 + civets * 0.22` as the keeper picks them
    /// up by hand; the host logs how much.
    PickUp,
    /// `fruit` coffee fruit leave the stock and one unit of civet feed is added.
    HandFeed { fruit: u32 },
    /// The host logs the care notes (favourite fruit, mood, hunger) of a civet.
    CivetNotes(usize),
    /// An order of `n` bags cannot be covered; the host logs how many
    /// roasted bags are on hand.
    OrderShortfall(u32),
    /// An order of `bags` bags leaves the roasted stock and suspicion rises by
    /// the order's risk `2.5 + bags * 0.55`, less 1.5 with a legal office, but
    /// by at least 0.5.
    Deliver { bags: u32, legal_office: bool },
}

/// The fixed changes a rule makes to the two meters, in hundredths of a point,
/// each applied as one addition, together with a stock move.
#[derive(Clone, Copy, Debug, PartialEq, Eq, Structural)]
pub struct Effect {
    pub suspicion: i64,
    pub happiness: i64,
    pub stock: StockMove,
}

/// The effect with the given meter changes and stock move.
pub open spec fn fx(suspicion: int, happiness: int, stock: StockMove) -> Effect {
    Effect { suspicion: suspicion as i64, happiness: happiness as i64, stock }
}

/// The effect that changes nothing.
pub open spec fn no_effect() -> Effect {
    fx(0, 0, StockMove::Still)
}

pub fn effect(suspicion: i64, happiness: i64, stock: StockMove) -> (e: Effect)
    ensures
        e == fx(suspicion as int, happiness as int, stock),
{
    Effect { suspicion, happiness, stock }
}

} // verus!
