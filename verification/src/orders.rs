//! Premium orders: offers that arrive by letter, are accepted or declined,
//! and are delivered from the roasted stock.
use vstd::prelude::*;
use crate::effect::{effect, fx, no_effect, Effect, StockMove};
use crate::estate::{Estate, EstateView, OrderOffer, OrderView, FINAL_DAY};
use crate::events::{fits_i32, min_u32, simulation_live};
use crate::journal::logged;
use crate::localization::{in_language, language_text, Language};
use crate::rng::{index_of, next_seed};
use crate::text::{decimal, decimal_text};

verus! {

pub const NEW_CONTRACT_EN: &'static str = "New mailbox letter: a premium buyer sends a contract.";
pub const NEW_CONTRACT_SV: &'static str = "Nytt brev i postlådan: en premiumköpare skickar ett kontrakt.";
pub const NO_PENDING_EN: &'static str = "No premium order is waiting.";
pub const NO_PENDING_SV: &'static str = "Ingen premiumorder väntar.";
pub const NO_ACTIVE_EN: &'static str = "No active premium order to deliver.";
pub const NO_ACTIVE_SV: &'static str = "Ingen aktiv premiumorder att leverera.";

/// The buyer drawn for an index below five.
pub open spec fn client_for(i: int) -> Seq<char> {
    if i == 0 {
        "Nordic Embassy Breakfast Desk"@
    } else if i == 1 {
        "Suspiciously Calm Boutique Hotel"@
    } else if i == 2 {
        "Ministry of Agricultural Irony"@
    } else if i == 3 {
        "Very Normal Import Cooperative"@
    } else {
        "Monaco Goat-Free Espresso Bar"@
    }
}

pub fn client_name(i: usize) -> (s: &'static str)
    ensures
        s@ == client_for(i as int),
{
    if i == 0 {
        "Nordic Embassy Breakfast Desk"
    } else if i == 1 {
        "Suspiciously Calm Boutique Hotel"
    } else if i == 2 {
        "Ministry of Agricultural Irony"
    } else if i == 3 {
        "Very Normal Import Cooperative"
    } else {
        "Monaco Goat-Free Espresso Bar"
    }
}

/// The payout the host quotes for an offer of 3, 4, 5, 6 or 7 bags (in
/// that order), computed from the reputation and the tasting room.
#[derive(Clone, Copy, Debug)]
pub struct OrderQuotes {
    pub payouts: [i32; 5],
}

/// The offer drawn from the seed, in order: the buyer, then the bag count.
pub open spec fn drawn_offer(v: EstateView, quotes: OrderQuotes) -> (u64, OrderView) {
    let s1 = next_seed(v.rng_seed);
    let s2 = next_seed(s1);
    let bags = 3 + index_of(s2, 5);
    (
        s2,
        OrderView {
            client: client_for(index_of(s1, 5) as int),
            bags: bags as u32,
            payout: quotes.payouts@[index_of(s2, 5) as int],
            reputation_reward: (2 + bags / 4) as i32,
            due_day: min_u32(v.day + 3, FINAL_DAY as int) as u32,
        },
    )
}

/// The rule for the order timer: while the simulation runs and neither an
/// offer nor an accepted order is open, a buyer sends an offer.
pub open spec fn post_offer_rule(v: EstateView, quotes: OrderQuotes) -> EstateView {
    if !simulation_live(v) || v.pending_order is Some || v.active_order is Some {
        v
    } else {
        let (seed, offer) = drawn_offer(v, quotes);
        EstateView {
            rng_seed: seed,
            pending_order: Some(offer),
            log: logged(v.log, in_language(v.language, NEW_CONTRACT_EN@, NEW_CONTRACT_SV@)),
            ..v
        }
    }
}

/// The line logged when an offer is accepted.
pub open spec fn accepted_line(language: Language, o: OrderView) -> Seq<char> {
    if language == Language::Swedish {
        "Accepterade order från "@ + o.client + ": "@ + decimal(o.bags as int) + ".0 säckar till dag "@
            + decimal(o.due_day as int) + "."@
    } else {
        "Accepted order from "@ + o.client + ": "@ + decimal(o.bags as int) + ".0 bags due day "@
            + decimal(o.due_day as int) + "."@
    }
}

/// The line logged when an offer is declined.
pub open spec fn declined_line(language: Language, o: OrderView) -> Seq<char> {
    if language == Language::Swedish {
        "Avböjde "@ + o.client + ". Kontraktet använde för många lågmälda adjektiv."@
    } else {
        "Declined "@ + o.client + ". The contract used too many quiet adjectives."@
    }
}

/// The line logged when an order is delivered.
pub open spec fn delivered_line(language: Language, o: OrderView) -> Seq<char> {
    if language == Language::Swedish {
        "Levererade premiumorder till "@ + o.client + " för $"@ + decimal(o.payout as int) + "."@
    } else {
        "Delivered premium order to "@ + o.client + " for $"@ + decimal(o.payout as int) + "."@
    }
}

/// The estate after the waiting offer is accepted.
pub open spec fn accepted(v: EstateView, o: OrderView) -> EstateView {
    EstateView { pending_order: None, active_order: Some(o), log: logged(v.log, accepted_line(v.language, o)), ..v }
}

/// The estate after the waiting offer is declined.
pub open spec fn declined(v: EstateView, o: OrderView) -> EstateView {
    EstateView {
        pending_order: None,
        reputation: v.reputation - 1,
        log: logged(v.log, declined_line(v.language, o)),
        ..v
    }
}

/// The rule for answering an offer (`accept` or decline). The meters are
/// clamped afterwards when an offer was there (the `bool`).
pub open spec fn answer_offer_rule(v: EstateView, accept: bool) -> (EstateView, Effect, bool) {
    match v.pending_order {
        None => (
            EstateView { log: logged(v.log, in_language(v.language, NO_PENDING_EN@, NO_PENDING_SV@)), ..v },
            no_effect(),
            false,
        ),
        Some(o) => if accept {
            (accepted(v, o), fx(150, 0, StockMove::Still), true)
        } else {
            (declined(v, o), fx(-150, 0, StockMove::Still), true)
        },
    }
}

/// The estate after an accepted order is delivered.
pub open spec fn delivered(v: EstateView, o: OrderView) -> EstateView {
    EstateView {
        money: v.money + o.payout,
        daily_sales: v.daily_sales + o.payout,
        reputation: v.reputation + o.reputation_reward + if v.tasting_room { 1int } else { 0 },
        active_order: None,
        log: logged(v.log, delivered_line(v.language, o)),
        ..v
    }
}

/// The rule for delivering the accepted order; `covered` says the roasted
/// stock holds its bags. Without cover the host reports the shortfall.
pub open spec fn deliver_rule(v: EstateView, covered: bool) -> (EstateView, Effect, bool) {
    match v.active_order {
        None => (
            EstateView { log: logged(v.log, in_language(v.language, NO_ACTIVE_EN@, NO_ACTIVE_SV@)), ..v },
            no_effect(),
            false,
        ),
        Some(o) => if !covered {
            (v, fx(0, 0, StockMove::OrderShortfall(o.bags)), false)
        } else {
            (delivered(v, o), fx(0, 0, StockMove::Deliver { bags: o.bags, legal_office: v.legal_office }), true)
        },
    }
}

pub open spec fn deliver_fits(v: EstateView, covered: bool) -> bool {
    match v.active_order {
        Some(o) => covered ==> {
            &&& fits_i32(v.money + o.payout)
            &&& fits_i32(v.daily_sales + o.payout)
            &&& fits_i32(o.reputation_reward + if v.tasting_room { 1int } else { 0 })
            &&& fits_i32(v.reputation + o.reputation_reward + if v.tasting_room { 1int } else { 0 })
        },
        None => true,
    }
}

/// Builds `parts.0 + client + parts.1 + n + parts.2`.
fn order_line(a: &str, client: &str, b: &str, n: i64, c: &str) -> (s: String)
    ensures
        s@ == a@ + client@ + b@ + decimal(n as int) + c@,
{
    let mut s = a.to_owned();
    s.append(client);
    s.append(b);
    let num = decimal_text(n);
    s.append(num.as_str());
    s.append(c);
    s
}

fn accepted_text(language: Language, o: &OrderOffer) -> (s: String)
    ensures
        s@ == accepted_line(language, o@),
{
    let sw = language == Language::Swedish;
    let mut s = order_line(
        if sw { "Accepterade order från " } else { "Accepted order from " },
        o.client.as_str(),
        ": ",
        o.bags as i64,
        if sw { ".0 säckar till dag " } else { ".0 bags due day " },
    );
    let due = decimal_text(o.due_day as i64);
    s.append(due.as_str());
    s.append(".");
    s
}

fn declined_text(language: Language, o: &OrderOffer) -> (s: String)
    ensures
        s@ == declined_line(language, o@),
{
    let mut s = (if language == Language::Swedish { "Avböjde " } else { "Declined " }).to_owned();
    s.append(o.client.as_str());
    s.append(
        if language == Language::Swedish {
            ". Kontraktet använde för många lågmälda adjektiv."
        } else {
            ". The contract used too many quiet adjectives."
        },
    );
    s
}

fn delivered_text(language: Language, o: &OrderOffer) -> (s: String)
    ensures
        s@ == delivered_line(language, o@),
{
    let sw = language == Language::Swedish;
    order_line(
        if sw { "Levererade premiumorder till " } else { "Delivered premium order to " },
        o.client.as_str(),
        if sw { " för $" } else { " for $" },
        o.payout as i64,
        ".",
    )
}

impl Estate {
    /// Sends a new premium offer when the simulation runs and no order is
    /// open; says whether one was sent.
    pub fn post_order_offer(&mut self, quotes: OrderQuotes) -> (posted: bool)
        requires
            old(self).day <= u32::MAX - 3,
        ensures
            final(self)@ == post_offer_rule(old(self)@, quotes),
            posted == (simulation_live(old(self)@) && old(self).pending_order is None
                && old(self).active_order is None),
    {
        if !self.simulation_live() || self.pending_order.is_some() || self.active_order.is_some() {
            return false;
        }
        let c = self.rand_index(5);
        let b = self.rand_index(5);
        let bags: u32 = 3 + b as u32;
        let offer = OrderOffer {
            client: client_name(c).to_owned(),
            bags,
            payout: quotes.payouts[b],
            reputation_reward: 2 + (bags / 4) as i32,
            due_day: if self.day + 3 <= FINAL_DAY { self.day + 3 } else { FINAL_DAY },
        };
        self.pending_order = Some(offer);
        let line = language_text(self.language, NEW_CONTRACT_EN, NEW_CONTRACT_SV);
        self.log_text(line);
        true
    }

    /// Accepts (`accept`) or declines the waiting offer. Returns the effect on
    /// the meters and whether the host clamps them afterwards.
    pub fn answer_offer(&mut self, accept: bool) -> (r: (Effect, bool))
        requires
            old(self).pending_order is Some && !accept ==> old(self).reputation > i32::MIN,
        ensures
            final(self)@ == answer_offer_rule(old(self)@, accept).0,
            r.0 == answer_offer_rule(old(self)@, accept).1,
            r.1 == answer_offer_rule(old(self)@, accept).2,
    {
        if self.pending_order.is_none() {
            let line = language_text(self.language, NO_PENDING_EN, NO_PENDING_SV);
            self.log_text(line);
            return (effect(0, 0, StockMove::Still), false);
        }
        if accept {
            self.accept_offer();
            (effect(150, 0, StockMove::Still), true)
        } else {
            self.decline_offer();
            (effect(-150, 0, StockMove::Still), true)
        }
    }

    fn accept_offer(&mut self)
        requires
            old(self).pending_order is Some,
        ensures
            final(self)@ == accepted(old(self)@, old(self)@.pending_order->0),
    {
        let mut taken: Option<OrderOffer> = None;
        std::mem::swap(&mut taken, &mut self.pending_order);
        let o = taken.unwrap();
        let line = accepted_text(self.language, &o);
        self.active_order = Some(o);
        self.log_line(line);
    }

    fn decline_offer(&mut self)
        requires
            old(self).pending_order is Some,
            old(self).reputation > i32::MIN,
        ensures
            final(self)@ == declined(old(self)@, old(self)@.pending_order->0),
    {
        let mut taken: Option<OrderOffer> = None;
        std::mem::swap(&mut taken, &mut self.pending_order);
        let o = taken.unwrap();
        let line = declined_text(self.language, &o);
        self.reputation = self.reputation - 1;
        self.log_line(line);
    }

    /// Whether `deliver_order` stays inside the machine types.
    pub fn deliver_fits(&self, covered: bool) -> (ok: bool)
        ensures
            ok == deliver_fits(self@, covered),
    {
        match &self.active_order {
            Some(o) => {
                if !covered {
                    return true;
                }
                let bonus: i64 = if self.tasting_room { 1 } else { 0 };
                let money = self.money as i64 + o.payout as i64;
                let sales = self.daily_sales as i64 + o.payout as i64;
                let gain = o.reputation_reward as i64 + bonus;
                let rep = self.reputation as i64 + gain;
                let lo = i32::MIN as i64;
                let hi = i32::MAX as i64;
                lo <= money && money <= hi && lo <= sales && sales <= hi && lo <= gain && gain <= hi
                    && lo <= rep && rep <= hi
            },
            None => true,
        }
    }

    /// Delivers the accepted order; `covered` says the roasted stock holds its
    /// bags. Returns the effect (the bags leave the stock and the order's
    /// risk adds suspicion, or the host reports a shortfall) and whether the
    /// host clamps the meters afterwards.
    pub fn deliver_order(&mut self, covered: bool) -> (r: (Effect, bool))
        requires
            deliver_fits(old(self)@, covered),
        ensures
            final(self)@ == deliver_rule(old(self)@, covered).0,
            r.0 == deliver_rule(old(self)@, covered).1,
            r.1 == deliver_rule(old(self)@, covered).2,
    {
        let (bags, payout, reward) = match &self.active_order {
            None => {
                let line = language_text(self.language, NO_ACTIVE_EN, NO_ACTIVE_SV);
                self.log_text(line);
                return (effect(0, 0, StockMove::Still), false);
            },
            Some(o) => (o.bags, o.payout, o.reputation_reward),
        };
        if !covered {
            return (effect(0, 0, StockMove::OrderShortfall(bags)), false);
        }
        let legal_office = self.legal_office;
        self.settle_delivery(payout, reward);
        (effect(0, 0, StockMove::Deliver { bags, legal_office }), true)
    }

    /// Books the payout and reward of the accepted order and closes it.
    fn settle_delivery(&mut self, payout: i32, reward: i32)
        requires
            old(self).active_order matches Some(o) && o.payout == payout && o.reputation_reward == reward,
            deliver_fits(old(self)@, true),
        ensures
            final(self)@ == delivered(old(self)@, old(self)@.active_order->0),
    {
        let mut taken: Option<OrderOffer> = None;
        std::mem::swap(&mut taken, &mut self.active_order);
        let o = taken.unwrap();
        let line = delivered_text(self.language, &o);
        self.money = self.money + payout;
        self.daily_sales = self.daily_sales + payout;
        self.reputation = self.reputation + (reward + if self.tasting_room { 1 } else { 0 });
        self.log_line(line);
    }
}

} // verus!
