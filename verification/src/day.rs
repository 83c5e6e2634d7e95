//! The end of a plantation day: upkeep, reputation and suspicion verdicts,
//! expiring letters, the daily report and the final result.
use vstd::prelude::*;
use crate::effect::{effect, fx, Effect, StockMove};
use crate::estate::{DayReport, Estate, EstateView, GameResult, ReportView, ResultView, FINAL_DAY};
use crate::events::fits_i32;
use crate::journal::logged;
use crate::localization::{in_language, language_text, Language};
use crate::text::{decimal, decimal_text, digit_char};

verus! {

pub const MISSED_ORDER_EN: &'static str = "Missed a premium order. The buyer files a complaint with adjectives.";
pub const MISSED_ORDER_SV: &'static str = "Missade en premiumorder. Köparen lämnar ett klagomål med adjektiv.";
pub const EXPIRED_OFFER_EN: &'static str = "An unopened contract expires in the mailbox. Mildly bad optics.";
pub const EXPIRED_OFFER_SV: &'static str = "Ett oöppnat kontrakt löper ut i postlådan. Milt dålig optik.";
pub const TIMEOUT_EN: &'static str = " times out in the mailbox. The world keeps spinning.";
pub const TIMEOUT_SV: &'static str = " löper ut i postlådan. Världen fortsätter snurra.";
pub const CALM_EN: &'static str = "Daily Report: Everyone Is Being Very Calm";
pub const CALM_SV: &'static str = "Dagsrapport: Alla är väldigt lugna";
pub const MORALE_EN: &'static str = "Daily Report: Civet Morale Committee Convenes";
pub const MORALE_SV: &'static str = "Dagsrapport: Palmmårdarnas moralkommitté sammanträder";
pub const PREMIUM_EN: &'static str = "Daily Report: Premium Beans, Premium Questions";
pub const PREMIUM_SV: &'static str = "Dagsrapport: Premiumbönor, premiumfrågor";
pub const BORING_EN: &'static str = "Daily Report: Boring Coffee, Dramatic Shadows";
pub const BORING_SV: &'static str = "Dagsrapport: Tråkigt kaffe, dramatiska skuggor";
pub const DEBT_EN: &'static str = "The plantation collapses under debt. The goat denies fiduciary responsibility.";
pub const DEBT_SV: &'static str = "Plantagen kollapsar under skulder. Geten förnekar ekonomiskt ansvar.";
pub const DISGRACE_EN: &'static str = "Reputation bottoms out. Critics describe the coffee as 'procedurally concerning'.";
pub const DISGRACE_SV: &'static str = "Ryktet bottnar. Recensenter beskriver kaffet som 'procedurmässigt oroande'.";
pub const WON_EN: &'static str = "Seven days survived: profitable, reputable, and only moderately surveilled.";
pub const WON_SV: &'static str = "Sju dagar överlevda: lönsamt, ansett och bara måttligt övervakat.";
pub const NOT_INVESTABLE_EN: &'static str = "Seven days pass, but the board calls the result 'not yet investable'.";
pub const NOT_INVESTABLE_SV: &'static str = "Sju dagar går, men styrelsen kallar resultatet 'ännu inte investerbart'.";

/// Money a run must end with to be won.
pub const WIN_MONEY: i32 = 320;
/// Reputation a run must end with to be won.
pub const WIN_REPUTATION: i32 = 18;
/// Debt below which the plantation collapses.
pub const DEBT_LIMIT: i32 = -80;
/// Reputation at or below which the run fails.
pub const DISGRACE_LIMIT: i32 = -8;

/// What the closing of the books needs to know of the meters.
#[derive(Clone, Copy, Debug, PartialEq, Eq, Structural)]
pub struct DayReading {
    /// Civet happiness at least 75.
    pub cheerful: bool,
    /// Civet happiness below 35.
    pub miserable: bool,
    /// Suspicion at least 80.
    pub hot: bool,
}

/// What the report needs to know of the meters once the day's changes are in.
#[derive(Clone, Copy, Debug, PartialEq, Eq, Structural)]
pub struct ReportReading {
    /// Suspicion at least 85.
    pub alarmed: bool,
    /// Civet happiness below 40.
    pub low_morale: bool,
    /// Suspicion below 80.
    pub trusted: bool,
}

/// The numbers of a closed day; the suspicion change is in hundredths.
#[derive(Clone, Copy, Debug, PartialEq, Eq, Structural)]
pub struct DayTally {
    pub day: u32,
    pub upkeep: i32,
    pub reputation_delta: i32,
    pub suspicion_delta: i64,
}

/// The daily upkeep: a base of 18, per civet 5, per enclosure level 7, per
/// paperwork level 3, one per three coffee plants, and the running cost of
/// each upgrade (legal office 12, caretaker 14, fruit sorter 8, roasting
/// shed 10, tasting room 12).
pub open spec fn upkeep_of(v: EstateView) -> int {
    18 + v.civets * 5 + v.enclosure_level * 7 + v.paperwork_level * 3 + v.coffee_plants / 3
        + (if v.legal_office { 12int } else { 0 }) + (if v.caretaker { 14int } else { 0 })
        + (if v.fruit_sorter { 8int } else { 0 }) + (if v.roasting_shed { 10int } else { 0 })
        + (if v.tasting_room { 12int } else { 0 })
}

/// The estate after the upkeep is paid.
pub open spec fn charged(v: EstateView) -> EstateView {
    EstateView {
        money: v.money - upkeep_of(v),
        daily_expenses: v.daily_expenses + upkeep_of(v),
        ..v
    }
}

/// The day's verdict before letters expire, as (reputation, suspicion in
/// hundredths): sales of 120 or more earn 2 and add 3.5, no sales cost 1 and
/// add 1; cheerful civets earn 2 and calm 3, miserable ones cost 3 and add 8;
/// high suspicion costs 1; paperwork level at least the day calms 2.5; a legal
/// office calms 2; a tasting room with sales earns 1.
pub open spec fn verdict(v: EstateView, r: DayReading) -> (int, int) {
    let (r1, s1) = if v.daily_sales >= 120 {
        (2int, 350int)
    } else if v.daily_sales <= 0 {
        (-1int, 100int)
    } else {
        (0int, 0int)
    };
    let (r2, s2) = if r.cheerful {
        (r1 + 2, s1 - 300)
    } else if r.miserable {
        (r1 - 3, s1 + 800)
    } else {
        (r1, s1)
    };
    let r3 = if r.hot { r2 - 1 } else { r2 };
    let s3 = if v.paperwork_level >= v.day { s2 - 250 } else { s2 };
    let s4 = if v.legal_office { s3 - 200 } else { s3 };
    let r4 = if v.tasting_room && v.daily_sales > 0 { r3 + 1 } else { r3 };
    (r4, s4)
}

/// An accepted order past its due day is dropped: 3 reputation and 6 suspicion.
pub open spec fn expire_active(v: EstateView, day: int) -> (EstateView, int, int) {
    match v.active_order {
        Some(o) => if o.due_day <= day {
            (
                EstateView {
                    active_order: None,
                    log: logged(v.log, in_language(v.language, MISSED_ORDER_EN@, MISSED_ORDER_SV@)),
                    ..v
                },
                -3,
                600,
            )
        } else {
            (v, 0, 0)
        },
        None => (v, 0, 0),
    }
}

/// An offer past its due day expires: 1 reputation and 2 suspicion.
pub open spec fn expire_pending(v: EstateView, day: int) -> (EstateView, int, int) {
    match v.pending_order {
        Some(o) => if o.due_day <= day {
            (
                EstateView {
                    pending_order: None,
                    log: logged(v.log, in_language(v.language, EXPIRED_OFFER_EN@, EXPIRED_OFFER_SV@)),
                    ..v
                },
                -1,
                200,
            )
        } else {
            (v, 0, 0)
        },
        None => (v, 0, 0),
    }
}

/// An incident letter past its due day times out: 1 reputation, 2.5
/// suspicion and 1.5 civet happiness (the last `bool` says it did).
pub open spec fn expire_event(v: EstateView, day: int) -> (EstateView, int, int, bool) {
    match v.event {
        Some(e) => if e.due_day <= day {
            (
                EstateView {
                    event: None,
                    log: logged(v.log, e.title + in_language(v.language, TIMEOUT_EN@, TIMEOUT_SV@)),
                    ..v
                },
                -1,
                250,
                true,
            )
        } else {
            (v, 0, 0, false)
        },
        None => (v, 0, 0, false),
    }
}

/// The first half of the end of a day: the upkeep is paid, letters past due
/// expire, and the day's reputation verdict is booked. The effect carries the
/// suspicion verdict and the happiness lost to a timed-out letter.
pub open spec fn close_books_rule(v: EstateView, r: DayReading) -> (EstateView, DayTally, Effect) {
    let day = v.day;
    let c = charged(v);
    let (r0, s0) = verdict(c, r);
    let (a, r1, s1) = expire_active(c, day);
    let (p, r2, s2) = expire_pending(a, day);
    let (e, r3, s3, timed_out) = expire_event(p, day);
    let rep = r0 + r1 + r2 + r3;
    let sus = s0 + s1 + s2 + s3;
    (
        EstateView { reputation: e.reputation + rep, ..e },
        DayTally { day: day as u32, upkeep: upkeep_of(v) as i32, reputation_delta: rep as i32, suspicion_delta: sus as i64 },
        fx(sus, if timed_out { -150 } else { 0 }, StockMove::Still),
    )
}

pub open spec fn close_books_fits(v: EstateView) -> bool {
    &&& v.civets <= i32::MAX && v.enclosure_level <= i32::MAX && v.paperwork_level <= i32::MAX
        && v.coffee_plants <= i32::MAX
    &&& fits_i32(upkeep_of(v))
    &&& fits_i32(v.money - upkeep_of(v))
    &&& fits_i32(v.daily_expenses + upkeep_of(v))
    &&& i32::MIN + 10 <= v.reputation <= i32::MAX - 5
}

/// A signed integer as `{:+}` writes it.
pub open spec fn signed(n: int) -> Seq<char> {
    if n >= 0 { seq!['+'] + decimal(n) } else { decimal(n) }
}

/// An amount in hundredths with sign and one decimal, as `{:+.1}` writes a
/// multiple of 0.5.
pub open spec fn signed_tenths(h: int) -> Seq<char> {
    let a = if h >= 0 { h } else { -h };
    (if h >= 0 { seq!['+'] } else { seq!['-'] }) + decimal(a / 100) + seq!['.', digit_char(((a % 100) / 10) as nat)]
}

/// The title of the day's report.
pub open spec fn report_title(v: EstateView, r: ReportReading) -> Seq<char> {
    if r.alarmed {
        in_language(v.language, CALM_EN@, CALM_SV@)
    } else if r.low_morale {
        in_language(v.language, MORALE_EN@, MORALE_SV@)
    } else if v.daily_sales >= 120 {
        in_language(v.language, PREMIUM_EN@, PREMIUM_SV@)
    } else {
        in_language(v.language, BORING_EN@, BORING_SV@)
    }
}

/// The summary of a day's report.
pub open spec fn summary_of(language: Language, sales: int, costs: int, t: DayTally) -> Seq<char> {
    if language == Language::Swedish {
        "Försäljning $"@ + decimal(sales) + ". Driftkostnader $"@ + decimal(costs) + ". Rykte "@
            + signed(t.reputation_delta as int) + ". Misstanke "@ + signed_tenths(t.suspicion_delta as int) + "%."@
    } else {
        "Sales $"@ + decimal(sales) + ". Operating costs $"@ + decimal(costs) + ". Reputation "@
            + signed(t.reputation_delta as int) + ". Suspicion "@ + signed_tenths(t.suspicion_delta as int) + "%."@
    }
}

/// The end-of-day log line.
pub open spec fn day_line_of(language: Language, sales: int, costs: int, t: DayTally) -> Seq<char> {
    if language == Language::Swedish {
        "Slut på dag "@ + decimal(t.day as int) + ": försäljning $"@ + decimal(sales) + ", kostnader $"@
            + decimal(costs) + ", rykte "@ + signed(t.reputation_delta as int) + ", misstanke "@
            + signed_tenths(t.suspicion_delta as int) + "%."@
    } else {
        "End of day "@ + decimal(t.day as int) + ": sales $"@ + decimal(sales) + ", costs $"@ + decimal(costs)
            + ", reputation "@ + signed(t.reputation_delta as int) + ", suspicion "@
            + signed_tenths(t.suspicion_delta as int) + "%."@
    }
}

/// The report written at the end of a day.
pub open spec fn report_of(v: EstateView, t: DayTally, r: ReportReading) -> ReportView {
    ReportView {
        day: t.day,
        title: report_title(v, r),
        summary: summary_of(v.language, v.daily_sales as int, v.daily_expenses as int, t),
        upkeep: t.upkeep,
        reputation_delta: t.reputation_delta,
        suspicion_delta: t.suspicion_delta,
    }
}

/// How the run stands after a day: debt below 80 fails it, reputation at
/// or below -8 fails it; after the last day it is won with at least $320,
/// reputation 18 and suspicion below 80, and failed otherwise. `None` means
/// the next day begins.
pub open spec fn verdict_of_run(v: EstateView, day: int, r: ReportReading) -> Option<ResultView> {
    if v.money < DEBT_LIMIT {
        Some(ResultView::Failed(in_language(v.language, DEBT_EN@, DEBT_SV@)))
    } else if v.reputation <= DISGRACE_LIMIT {
        Some(ResultView::Failed(in_language(v.language, DISGRACE_EN@, DISGRACE_SV@)))
    } else if day >= FINAL_DAY {
        if v.money >= WIN_MONEY && v.reputation >= WIN_REPUTATION && r.trusted {
            Some(ResultView::Won(in_language(v.language, WON_EN@, WON_SV@)))
        } else {
            Some(ResultView::Failed(in_language(v.language, NOT_INVESTABLE_EN@, NOT_INVESTABLE_SV@)))
        }
    } else {
        None
    }
}

/// The estate once the day's report is filed and the run's verdict known.
pub open spec fn concluded(v: EstateView, line: Seq<char>, report: ReportView, result: Option<ResultView>) -> EstateView {
    EstateView {
        log: logged(v.log, line),
        daily_sales: 0,
        daily_expenses: 0,
        game_result: if result is Some { result } else { v.game_result },
        day: if result is Some { v.day } else { v.day + 1 },
        day_report: Some(report),
        ..v
    }
}

/// The second half of the end of a day: the report is written and logged,
/// the day's sales and costs are reset, and the run either ends or moves on
/// to the next day.
pub open spec fn file_report_rule(v: EstateView, t: DayTally, r: ReportReading) -> EstateView {
    concluded(
        v,
        day_line_of(v.language, v.daily_sales as int, v.daily_expenses as int, t),
        report_of(v, t, r),
        verdict_of_run(v, t.day as int, r),
    )
}

fn digit_text(d: u64) -> (s: &'static str)
    requires
        d < 10,
    ensures
        s@ == seq![digit_char(d as nat)],
{
    let s = if d == 0 {
        "0"
    } else if d == 1 {
        "1"
    } else if d == 2 {
        "2"
    } else if d == 3 {
        "3"
    } else if d == 4 {
        "4"
    } else if d == 5 {
        "5"
    } else if d == 6 {
        "6"
    } else if d == 7 {
        "7"
    } else if d == 8 {
        "8"
    } else {
        "9"
    };
    proof {
        reveal_strlit("0");
        reveal_strlit("1");
        reveal_strlit("2");
        reveal_strlit("3");
        reveal_strlit("4");
        reveal_strlit("5");
        reveal_strlit("6");
        reveal_strlit("7");
        reveal_strlit("8");
        reveal_strlit("9");
    }
    s
}

fn signed_text(n: i32) -> (s: String)
    ensures
        s@ == signed(n as int),
{
    let mut s = String::new();
    if n >= 0 {
        s.append("+");
        proof { reveal_strlit("+"); }
    }
    let num = decimal_text(n as i64);
    s.append(num.as_str());
    assert(s@ =~= signed(n as int));
    s
}

fn signed_tenths_text(h: i64) -> (s: String)
    requires
        h > i64::MIN,
    ensures
        s@ == signed_tenths(h as int),
{
    let a: i64 = if h >= 0 { h } else { -h };
    let mut s = String::new();
    s.append(if h >= 0 { "+" } else { "-" });
    proof {
        reveal_strlit("+");
        reveal_strlit("-");
    }
    let whole = decimal_text(a / 100);
    s.append(whole.as_str());
    s.append(".");
    proof { reveal_strlit("."); }
    let d = digit_text(((a % 100) / 10) as u64);
    s.append(d);
    assert(s@ =~= signed_tenths(h as int));
    s
}

fn summary_text(language: Language, sales: i32, costs: i32, t: DayTally) -> (s: String)
    requires
        t.suspicion_delta > i64::MIN,
    ensures
        s@ == summary_of(language, sales as int, costs as int, t),
{
    let sw = language == Language::Swedish;
    let mut s = (if sw { "Försäljning $" } else { "Sales $" }).to_owned();
    let a = decimal_text(sales as i64);
    s.append(a.as_str());
    s.append(if sw { ". Driftkostnader $" } else { ". Operating costs $" });
    let b = decimal_text(costs as i64);
    s.append(b.as_str());
    s.append(if sw { ". Rykte " } else { ". Reputation " });
    let c = signed_text(t.reputation_delta);
    s.append(c.as_str());
    s.append(if sw { ". Misstanke " } else { ". Suspicion " });
    let d = signed_tenths_text(t.suspicion_delta);
    s.append(d.as_str());
    s.append("%.");
    s
}

fn day_line_text(language: Language, sales: i32, costs: i32, t: DayTally) -> (s: String)
    requires
        t.suspicion_delta > i64::MIN,
    ensures
        s@ == day_line_of(language, sales as int, costs as int, t),
{
    let sw = language == Language::Swedish;
    let mut s = (if sw { "Slut på dag " } else { "End of day " }).to_owned();
    let day = decimal_text(t.day as i64);
    s.append(day.as_str());
    s.append(if sw { ": försäljning $" } else { ": sales $" });
    let a = decimal_text(sales as i64);
    s.append(a.as_str());
    s.append(if sw { ", kostnader $" } else { ", costs $" });
    let b = decimal_text(costs as i64);
    s.append(b.as_str());
    s.append(if sw { ", rykte " } else { ", reputation " });
    let c = signed_text(t.reputation_delta);
    s.append(c.as_str());
    s.append(if sw { ", misstanke " } else { ", suspicion " });
    let d = signed_tenths_text(t.suspicion_delta);
    s.append(d.as_str());
    s.append("%.");
    s
}

impl Estate {
    /// Whether `close_books` stays inside the machine types.
    pub fn close_books_fits(&self) -> (ok: bool)
        ensures
            ok == close_books_fits(self@),
    {
        let max = i32::MAX as u32;
        if self.civets > max || self.enclosure_level > max || self.paperwork_level > max
            || self.coffee_plants > max {
            return false;
        }
        let upkeep = self.upkeep();
        let lo = i32::MIN as i64;
        let hi = i32::MAX as i64;
        let money = self.money as i64 - upkeep;
        let expenses = self.daily_expenses as i64 + upkeep;
        lo <= upkeep && upkeep <= hi && lo <= money && money <= hi && lo <= expenses && expenses <= hi
            && i32::MIN + 10 <= self.reputation && self.reputation <= i32::MAX - 5
    }

    /// The daily upkeep (see `upkeep_of`).
    pub fn upkeep(&self) -> (u: i64)
        requires
            self.civets <= i32::MAX && self.enclosure_level <= i32::MAX && self.paperwork_level <= i32::MAX
                && self.coffee_plants <= i32::MAX,
        ensures
            u == upkeep_of(self@),
    {
        18 + self.civets as i64 * 5 + self.enclosure_level as i64 * 7 + self.paperwork_level as i64 * 3
            + self.coffee_plants as i64 / 3 + if self.legal_office { 12 } else { 0 }
            + if self.caretaker { 14 } else { 0 } + if self.fruit_sorter { 8 } else { 0 }
            + if self.roasting_shed { 10 } else { 0 } + if self.tasting_room { 12 } else { 0 }
    }

    fn charge_upkeep(&mut self)
        requires
            close_books_fits(old(self)@),
        ensures
            final(self)@ == charged(old(self)@),
            final(self).reputation == old(self).reputation,
    {
        let upkeep = self.upkeep() as i32;
        self.money = self.money - upkeep;
        self.daily_expenses = self.daily_expenses + upkeep;
    }

    fn verdict(&self, r: DayReading) -> (d: (i32, i64))
        ensures
            (d.0 as int, d.1 as int) == verdict(self@, r),
            -5 <= d.0 <= 5 && -750 <= d.1 <= 1150,
    {
        let (r1, s1): (i32, i64) = if self.daily_sales >= 120 {
            (2, 350)
        } else if self.daily_sales <= 0 {
            (-1, 100)
        } else {
            (0, 0)
        };
        let (r2, s2): (i32, i64) = if r.cheerful {
            (r1 + 2, s1 - 300)
        } else if r.miserable {
            (r1 - 3, s1 + 800)
        } else {
            (r1, s1)
        };
        let r3 = if r.hot { r2 - 1 } else { r2 };
        let s3 = if self.paperwork_level >= self.day { s2 - 250 } else { s2 };
        let s4 = if self.legal_office { s3 - 200 } else { s3 };
        let r4 = if self.tasting_room && self.daily_sales > 0 { r3 + 1 } else { r3 };
        (r4, s4)
    }

    fn expire_active(&mut self, day: u32) -> (d: (i32, i64))
        ensures
            (final(self)@, d.0 as int, d.1 as int) == expire_active(old(self)@, day as int),
            final(self).reputation == old(self).reputation,
            -3 <= d.0 <= 0 && 0 <= d.1 <= 600,
    {
        let due = match &self.active_order {
            Some(o) => o.due_day <= day,
            None => false,
        };
        if due {
            self.active_order = None;
            let line = language_text(self.language, MISSED_ORDER_EN, MISSED_ORDER_SV);
            self.log_text(line);
            (-3, 600)
        } else {
            (0, 0)
        }
    }

    fn expire_pending(&mut self, day: u32) -> (d: (i32, i64))
        ensures
            (final(self)@, d.0 as int, d.1 as int) == expire_pending(old(self)@, day as int),
            final(self).reputation == old(self).reputation,
            -1 <= d.0 <= 0 && 0 <= d.1 <= 200,
    {
        let due = match &self.pending_order {
            Some(o) => o.due_day <= day,
            None => false,
        };
        if due {
            self.pending_order = None;
            let line = language_text(self.language, EXPIRED_OFFER_EN, EXPIRED_OFFER_SV);
            self.log_text(line);
            (-1, 200)
        } else {
            (0, 0)
        }
    }

    fn expire_event(&mut self, day: u32) -> (d: (i32, i64, bool))
        ensures
            (final(self)@, d.0 as int, d.1 as int, d.2) == expire_event(old(self)@, day as int),
            final(self).reputation == old(self).reputation,
            -1 <= d.0 <= 0 && 0 <= d.1 <= 250,
    {
        let due = match &self.event {
            Some(e) => e.due_day <= day,
            None => false,
        };
        if due {
            let mut taken = None;
            std::mem::swap(&mut taken, &mut self.event);
            let letter = taken.unwrap();
            let mut line = letter.title;
            line.append(language_text(self.language, TIMEOUT_EN, TIMEOUT_SV));
            self.log_line(line);
            (-1, 250, true)
        } else {
            (0, 0, false)
        }
    }

    /// Closes the day's books (see `close_books_rule`); `r` describes the
    /// meters. The host applies the effect, clamps the meters, then files the
    /// report with the returned tally.
    pub fn close_books(&mut self, r: DayReading) -> (out: (DayTally, Effect))
        requires
            close_books_fits(old(self)@),
        ensures
            final(self)@ == close_books_rule(old(self)@, r).0,
            out.0 == close_books_rule(old(self)@, r).1,
            out.1 == close_books_rule(old(self)@, r).2,
    {
        let day = self.day;
        let upkeep = self.upkeep() as i32;
        let ghost v0 = self@;
        self.charge_upkeep();
        let ghost c = self@;
        let (r0, s0) = self.verdict(r);
        let (r1, s1) = self.expire_active(day);
        let ghost a = self@;
        let (r2, s2) = self.expire_pending(day);
        let ghost p = self@;
        let (r3, s3, timed_out) = self.expire_event(day);
        let ghost e = self@;
        let rep = r0 + r1 + r2 + r3;
        let sus = s0 + s1 + s2 + s3;
        self.reputation = self.reputation + rep;
        let tally = DayTally { day, upkeep, reputation_delta: rep, suspicion_delta: sus };
        (tally, effect(sus, if timed_out { -150 } else { 0 }, StockMove::Still))
    }

    fn run_verdict(&self, day: u32, r: ReportReading) -> (g: Option<GameResult>)
        ensures
            crate::estate::opt_view(g) == verdict_of_run(self@, day as int, r),
    {
        if self.money < DEBT_LIMIT {
            Some(GameResult::Failed(language_text(self.language, DEBT_EN, DEBT_SV).to_owned()))
        } else if self.reputation <= DISGRACE_LIMIT {
            Some(GameResult::Failed(language_text(self.language, DISGRACE_EN, DISGRACE_SV).to_owned()))
        } else if day >= FINAL_DAY {
            if self.money >= WIN_MONEY && self.reputation >= WIN_REPUTATION && r.trusted {
                Some(GameResult::Won(language_text(self.language, WON_EN, WON_SV).to_owned()))
            } else {
                Some(GameResult::Failed(language_text(self.language, NOT_INVESTABLE_EN, NOT_INVESTABLE_SV).to_owned()))
            }
        } else {
            None
        }
    }

    fn report_title(&self, r: ReportReading) -> (s: &'static str)
        ensures
            s@ == report_title(self@, r),
    {
        if r.alarmed {
            language_text(self.language, CALM_EN, CALM_SV)
        } else if r.low_morale {
            language_text(self.language, MORALE_EN, MORALE_SV)
        } else if self.daily_sales >= 120 {
            language_text(self.language, PREMIUM_EN, PREMIUM_SV)
        } else {
            language_text(self.language, BORING_EN, BORING_SV)
        }
    }

    fn day_report_of(&self, t: DayTally, r: ReportReading) -> (d: DayReport)
        requires
            t.suspicion_delta > i64::MIN,
        ensures
            d@ == report_of(self@, t, r),
    {
        DayReport {
            day: t.day,
            title: self.report_title(r).to_owned(),
            summary: summary_text(self.language, self.daily_sales, self.daily_expenses, t),
            upkeep: t.upkeep,
            reputation_delta: t.reputation_delta,
            suspicion_delta: t.suspicion_delta,
        }
    }

    fn conclude(&mut self, line: String, report: DayReport, result: Option<GameResult>)
        requires
            result is None ==> old(self).day < u32::MAX,
        ensures
            final(self)@ == concluded(old(self)@, line@, report@, crate::estate::opt_view(result)),
    {
        self.log_line(line);
        self.daily_sales = 0;
        self.daily_expenses = 0;
        if result.is_some() {
            self.game_result = result;
        } else {
            self.day = self.day + 1;
        }
        self.day_report = Some(report);
    }

    /// Files the day's report (see `file_report_rule`) with the tally from
    /// `close_books`; `r` describes the meters after the day's changes.
    pub fn file_report(&mut self, t: DayTally, r: ReportReading)
        requires
            t.suspicion_delta > i64::MIN,
            verdict_of_run(old(self)@, t.day as int, r) is None ==> old(self).day < u32::MAX,
        ensures
            final(self)@ == file_report_rule(old(self)@, t, r),
    {
        let report = self.day_report_of(t, r);
        let line = day_line_text(self.language, self.daily_sales, self.daily_expenses, t);
        let result = self.run_verdict(t.day, r);
        self.conclude(line, report, result);
    }
}

} // verus!
