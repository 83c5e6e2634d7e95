//! The discrete state of the plantation and the rules that move it: actions,
//! the inspection, random events, the per-tick pressure and the status line.
use vstd::prelude::*;
use crate::action::{answers_inspection, EutherCivetAction};
use crate::effect::{effect, fx, no_effect, Effect, StockMove};
use crate::journal::{lines, log_text, log_line, logged, LOG_CAPACITY};
use crate::rng::{index_of, next_seed, rand_index, DEFAULT_SEED};
use crate::text::{number_line, with_number};

verus! {

pub const WELCOME: &'static str = "Welcome to EutherCivet: fair-trade coffee, suspicious silhouettes.";
pub const REMINDER: &'static str = "Reminder: no narcotics. Only fruit, civets, beans, and bureaucracy.";
pub const INSPECTION_BEGINS: &'static str = "Operation Bitter Bean begins.";
pub const PAPERWORK_READ: &'static str = "Authorities read the paperwork and become visibly tired.";
pub const TASTING_PASSED: &'static str = "Coffee tasting successful. One inspector detects notes of panic.";
pub const TASTING_SPOONS: &'static str = "There was not enough roasted coffee. The tasting was mostly spoons.";
pub const GOAT_LEAVES: &'static str = "The goat accepts no blame but leaves under legal advice.";
pub const WORK_PAUSED: &'static str = "Normal work is paused during Operation Bitter Bean.";
pub const PLANTED: &'static str = "A coffee shrub is planted in a formation lawyers called unfortunate.";
pub const NO_MONEY_FOR_PLANT: &'static str = "Not enough money for another coffee plant.";
pub const CIVETS_FED: &'static str = "Civets receive fruit. Morale improves. Optics remain complex.";
pub const NO_FRUIT: &'static str = "No fruit to feed the civets. They file a silent complaint.";
pub const ROASTED: &'static str = "Roasted a premium batch. Smoke plume described as theatrical.";
pub const NO_BEANS: &'static str = "Not enough processed beans to roast.";
pub const NO_ROASTED: &'static str = "No roasted coffee ready to sell.";
pub const ENCLOSURE_IMPROVED: &'static str = "Enclosure improved. Inspectors dislike how wholesome it is.";
pub const ENCLOSURE_NEEDS: &'static str = "Enclosure upgrade needs $";
pub const PAPERWORK_SHOWN: &'static str = "Presented receipts, permits, civet dental charts, and bean custody forms.";
pub const NO_MONEY_FOR_PAPERWORK: &'static str = "Not enough money to print the paperwork annex.";
pub const POLICE_VISIT: &'static str = "Local police visit. They admire the beans with tactical suspicion.";
pub const JOURNALIST: &'static str = "A journalist asks why every invoice says 'totally beans'.";
pub const WELFARE_PASSES: &'static str = "Animal welfare inspection passes. Civets look smug.";
pub const WELFARE_FAILS: &'static str = "Animal welfare inspection finds disappointed civets.";
pub const HELICOPTER: &'static str = "A police helicopter flies overhead. It circles the coffee bags twice.";
pub const BINTURONG_ESCAPES: &'static str = "The binturong escapes and naps inside a government vehicle.";
pub const PICKY_CIVET: &'static str = "A civet refuses low-quality fruit with devastating eye contact.";
pub const GOAT_APPEARS: &'static str = "A goat appears for no clear reason. Legal recommends silence.";

/// Ticks between two random events.
pub const EVENT_INTERVAL_TICKS: u64 = 9;

/// The discrete side of a plantation.
pub struct Ledger {
    pub coffee_plants: u32,
    pub civets: u32,
    pub money: i32,
    pub reputation: i32,
    pub enclosure_level: u32,
    pub paperwork_level: u32,
    pub binturong_home: bool,
    pub goat_present: bool,
    pub inspection: bool,
    pub rng_seed: u64,
    pub log: Vec<String>,
}

/// A ledger with the log taken by its text.
pub struct LedgerView {
    pub coffee_plants: u32,
    pub civets: u32,
    pub money: i32,
    pub reputation: i32,
    pub enclosure_level: u32,
    pub paperwork_level: u32,
    pub binturong_home: bool,
    pub goat_present: bool,
    pub inspection: bool,
    pub rng_seed: u64,
    pub log: Seq<Seq<char>>,
}

impl View for Ledger {
    type V = LedgerView;

    open spec fn view(&self) -> LedgerView {
        LedgerView {
            coffee_plants: self.coffee_plants,
            civets: self.civets,
            money: self.money,
            reputation: self.reputation,
            enclosure_level: self.enclosure_level,
            paperwork_level: self.paperwork_level,
            binturong_home: self.binturong_home,
            goat_present: self.goat_present,
            inspection: self.inspection,
            rng_seed: self.rng_seed,
            log: lines(self.log@),
        }
    }
}

/// What a sale of roasted coffee would bring, as the host measures it from
/// the roasted stock: the money earned (already rounded), the extra
/// reputation for a large batch (`sold / 5` rounded toward zero) and whether
/// more than six bags go.
#[derive(Clone, Copy, Debug, PartialEq, Eq, Structural)]
pub struct Sale {
    pub earned: i32,
    pub bag_bonus: i32,
    pub large: bool,
}

/// What the rules need to know of the continuous stocks before an action.
#[derive(Clone, Copy, Debug, PartialEq, Eq, Structural)]
pub struct Reading {
    /// At least four bags of roasted coffee.
    pub tasting_stock: bool,
    /// Some coffee fruit on hand.
    pub fruit_on_hand: bool,
    /// At least one unit of processed beans.
    pub beans_for_batch: bool,
    /// `Some` exactly when at least one bag of roasted coffee is ready.
    pub sale: Option<Sale>,
}

/// The result of an action: its effect on the stocks and meters, and whether
/// the morale check follows (it does after every action outside an inspection).
#[derive(Clone, Copy, Debug, PartialEq, Eq, Structural)]
pub struct Outcome {
    pub effect: Effect,
    pub routine: bool,
}

pub open spec fn outcome(effect: Effect, routine: bool) -> Outcome {
    Outcome { effect, routine }
}

pub open spec fn fits_i32(x: int) -> bool {
    i32::MIN <= x <= i32::MAX
}

/// What improving the enclosure costs at a level.
pub open spec fn enclosure_cost(level: u32) -> int {
    45 + (level as i32) * 20
}

/// What the paperwork annex costs at a level.
pub open spec fn paperwork_cost(level: u32) -> int {
    16 + (level as i32) * 3
}

/// The ledger a new game starts with.
pub open spec fn opening() -> LedgerView {
    LedgerView {
        coffee_plants: 6,
        civets: 3,
        money: 160,
        reputation: 8,
        enclosure_level: 1,
        paperwork_level: 1,
        binturong_home: true,
        goat_present: true,
        inspection: false,
        rng_seed: DEFAULT_SEED,
        log: seq![WELCOME@, REMINDER@],
    }
}

/// The rule for one action.
pub open spec fn step(v: LedgerView, a: EutherCivetAction, r: Reading) -> (LedgerView, Outcome) {
    if v.inspection {
        match a {
            EutherCivetAction::InspectPaperwork => (
                LedgerView {
                    money: (v.money - 18) as i32,
                    reputation: (v.reputation + 3) as i32,
                    inspection: false,
                    log: logged(v.log, PAPERWORK_READ@),
                    ..v
                },
                outcome(fx(-(4600 + 500 * v.paperwork_level), 0, StockMove::Still), false),
            ),
            EutherCivetAction::InspectTasting => if r.tasting_stock {
                (
                    LedgerView {
                        money: (v.money - 8) as i32,
                        reputation: (v.reputation + 6) as i32,
                        inspection: false,
                        log: logged(v.log, TASTING_PASSED@),
                        ..v
                    },
                    outcome(fx(-3400, 0, StockMove::TakeRoasted(4)), false),
                )
            } else {
                (
                    LedgerView {
                        reputation: (v.reputation - 2) as i32,
                        inspection: false,
                        log: logged(v.log, TASTING_SPOONS@),
                        ..v
                    },
                    outcome(fx(-1200, 0, StockMove::Still), false),
                )
            },
            EutherCivetAction::InspectGoat => (
                LedgerView {
                    reputation: (v.reputation - 4) as i32,
                    goat_present: false,
                    inspection: false,
                    log: logged(v.log, GOAT_LEAVES@),
                    ..v
                },
                outcome(fx(-2400, -600, StockMove::Still), false),
            ),
            _ => (LedgerView { log: logged(v.log, WORK_PAUSED@), ..v }, outcome(no_effect(), false)),
        }
    } else {
        match a {
            EutherCivetAction::PlantCoffee => if v.money >= 14 {
                let plants = v.coffee_plants + 1;
                (
                    LedgerView {
                        money: (v.money - 14) as i32,
                        coffee_plants: plants as u32,
                        log: logged(v.log, PLANTED@),
                        ..v
                    },
                    outcome(fx(if plants > 18 { 350 } else { 120 }, 0, StockMove::Still), true),
                )
            } else {
                (LedgerView { log: logged(v.log, NO_MONEY_FOR_PLANT@), ..v }, outcome(no_effect(), true))
            },
            EutherCivetAction::HarvestFruit => (v, outcome(fx(0, -80, StockMove::Harvest), true)),
            EutherCivetAction::FeedCivets => if r.fruit_on_hand && v.civets > 0 {
                (
                    LedgerView { log: logged(v.log, CIVETS_FED@), ..v },
                    outcome(fx(-100, 0, StockMove::Feed { sorter: false }), true),
                )
            } else {
                (
                    LedgerView { log: logged(v.log, NO_FRUIT@), ..v },
                    outcome(fx(300, -500, StockMove::Still), true),
                )
            },
            EutherCivetAction::CollectBeans => (v, outcome(fx(70, 0, StockMove::Collect), true)),
            EutherCivetAction::RoastCoffee => if r.beans_for_batch {
                (
                    LedgerView { money: (v.money - 2) as i32, log: logged(v.log, ROASTED@), ..v },
                    outcome(fx(80, 0, StockMove::Roast { shed: false }), true),
                )
            } else {
                (LedgerView { log: logged(v.log, NO_BEANS@), ..v }, outcome(no_effect(), true))
            },
            EutherCivetAction::SellCoffee => match r.sale {
                Some(s) => (
                    LedgerView {
                        money: (v.money + s.earned) as i32,
                        reputation: (v.reputation + 1 + s.bag_bonus) as i32,
                        ..v
                    },
                    outcome(fx(if s.large { 400 } else { 120 }, 0, StockMove::Sell), true),
                ),
                None => (LedgerView { log: logged(v.log, NO_ROASTED@), ..v }, outcome(no_effect(), true)),
            },
            EutherCivetAction::ImproveEnclosure => {
                let cost = enclosure_cost(v.enclosure_level);
                if v.money >= cost {
                    (
                        LedgerView {
                            money: (v.money - cost) as i32,
                            enclosure_level: (v.enclosure_level + 1) as u32,
                            reputation: (v.reputation + 2) as i32,
                            log: logged(v.log, ENCLOSURE_IMPROVED@),
                            ..v
                        },
                        outcome(fx(-800, 1800, StockMove::Still), true),
                    )
                } else {
                    (
                        LedgerView { log: logged(v.log, with_number(ENCLOSURE_NEEDS@, cost, "."@)), ..v },
                        outcome(no_effect(), true),
                    )
                }
            },
            EutherCivetAction::ShowPaperwork => {
                let cost = paperwork_cost(v.paperwork_level);
                if v.money >= cost {
                    let level = v.paperwork_level + 1;
                    (
                        LedgerView {
                            money: (v.money - cost) as i32,
                            paperwork_level: level as u32,
                            reputation: (v.reputation + 1) as i32,
                            log: logged(v.log, PAPERWORK_SHOWN@),
                            ..v
                        },
                        outcome(fx(-(1800 + 100 * level), 0, StockMove::Still), true),
                    )
                } else {
                    (
                        LedgerView { log: logged(v.log, NO_MONEY_FOR_PAPERWORK@), ..v },
                        outcome(no_effect(), true),
                    )
                }
            },
            _ => (v, outcome(no_effect(), true)),
        }
    }
}

/// The counters an action moves stay inside their machine types.
pub open spec fn step_fits(v: LedgerView, a: EutherCivetAction, r: Reading) -> bool {
    if v.inspection {
        match a {
            EutherCivetAction::InspectPaperwork => fits_i32(v.money - 18) && fits_i32(v.reputation + 3),
            EutherCivetAction::InspectTasting => if r.tasting_stock {
                fits_i32(v.money - 8) && fits_i32(v.reputation + 6)
            } else {
                fits_i32(v.reputation - 2)
            },
            EutherCivetAction::InspectGoat => fits_i32(v.reputation - 4),
            _ => true,
        }
    } else {
        match a {
            EutherCivetAction::PlantCoffee => v.money >= 14 ==> v.coffee_plants < u32::MAX,
            EutherCivetAction::RoastCoffee => r.beans_for_batch ==> fits_i32(v.money - 2),
            EutherCivetAction::SellCoffee => match r.sale {
                Some(s) => fits_i32(v.money + s.earned) && fits_i32(v.reputation + 1 + s.bag_bonus)
                    && fits_i32(1 + s.bag_bonus),
                None => true,
            },
            EutherCivetAction::ImproveEnclosure => {
                let cost = enclosure_cost(v.enclosure_level);
                &&& fits_i32((v.enclosure_level as i32) * 20)
                &&& fits_i32(cost)
                &&& v.money >= cost ==> {
                    &&& fits_i32(v.money - cost)
                    &&& v.enclosure_level < u32::MAX
                    &&& fits_i32(v.reputation + 2)
                }
            },
            EutherCivetAction::ShowPaperwork => {
                let cost = paperwork_cost(v.paperwork_level);
                &&& fits_i32((v.paperwork_level as i32) * 3)
                &&& fits_i32(cost)
                &&& v.money >= cost ==> {
                    &&& fits_i32(v.money - cost)
                    &&& v.paperwork_level < u32::MAX
                    &&& fits_i32(v.reputation + 1)
                }
            },
            _ => true,
        }
    }
}

/// The random event the ledger would draw next, as an index below seven.
pub open spec fn next_event(v: LedgerView) -> usize {
    index_of(next_seed(v.rng_seed), 7)
}

/// The rule for a random event; `content` says that civet happiness is at least 60.
pub open spec fn random_event_rule(v: LedgerView, content: bool) -> (LedgerView, Effect) {
    if v.inspection {
        (v, no_effect())
    } else {
        let w = LedgerView { rng_seed: next_seed(v.rng_seed), ..v };
        let i = next_event(v);
        if i == 0 {
            (LedgerView { log: logged(v.log, POLICE_VISIT@), ..w }, fx(700, 0, StockMove::Still))
        } else if i == 1 {
            (
                LedgerView { reputation: (v.reputation + 1) as i32, log: logged(v.log, JOURNALIST@), ..w },
                fx(500, 0, StockMove::Still),
            )
        } else if i == 2 {
            if content {
                (
                    LedgerView { reputation: (v.reputation + 3) as i32, log: logged(v.log, WELFARE_PASSES@), ..w },
                    fx(-500, 0, StockMove::Still),
                )
            } else {
                (
                    LedgerView { reputation: (v.reputation - 4) as i32, log: logged(v.log, WELFARE_FAILS@), ..w },
                    fx(1100, 0, StockMove::Still),
                )
            }
        } else if i == 3 {
            (LedgerView { log: logged(v.log, HELICOPTER@), ..w }, fx(1000, 0, StockMove::Still))
        } else if i == 4 {
            (
                LedgerView { binturong_home: false, log: logged(v.log, BINTURONG_ESCAPES@), ..w },
                fx(800, -400, StockMove::Still),
            )
        } else if i == 5 {
            (LedgerView { log: logged(v.log, PICKY_CIVET@), ..w }, fx(0, -600, StockMove::Still))
        } else {
            (
                LedgerView { goat_present: true, log: logged(v.log, GOAT_APPEARS@), ..w },
                fx(300, 0, StockMove::Still),
            )
        }
    }
}

/// The reputation change of the drawn event stays inside `i32`.
pub open spec fn random_event_fits(v: LedgerView, content: bool) -> bool {
    !v.inspection ==> {
        let i = next_event(v);
        &&& i == 1 ==> fits_i32(v.reputation + 1)
        &&& i == 2 ==> (if content { fits_i32(v.reputation + 3) } else { fits_i32(v.reputation - 4) })
    }
}

/// The status line the plantation shows.
pub open spec fn status(inspection: bool, distressed: bool, watched: bool) -> Seq<char> {
    if inspection {
        "inspection"@
    } else if distressed {
        "distressed"@
    } else if watched {
        "watched"@
    } else {
        "running"@
    }
}

/// Whether a tick is one on which a random event fires.
pub open spec fn event_tick(frame: int) -> bool {
    frame % (EVENT_INTERVAL_TICKS as int) == 0
}

/// Advances the frame counter; says whether the new frame brings a random event.
pub fn next_frame(frame: u64) -> (r: (u64, bool))
    requires
        frame < u64::MAX,
    ensures
        r.0 == frame + 1,
        r.1 == event_tick(frame + 1),
{
    let next = frame + 1;
    (next, next % EVENT_INTERVAL_TICKS == 0)
}

/// The status line: an inspection first, then distressed civets (happiness
/// below 30), then a watched plantation (suspicion at least 70), else running.
pub fn status_label(inspection: bool, distressed: bool, watched: bool) -> (s: &'static str)
    ensures
        s@ == status(inspection, distressed, watched),
{
    if inspection {
        "inspection"
    } else if distressed {
        "distressed"
    } else if watched {
        "watched"
    } else {
        "running"
    }
}

impl Ledger {
    /// The ledger of a new game.
    pub fn new() -> (l: Ledger)
        ensures
            l@ == opening(),
    {
        let mut log: Vec<String> = Vec::new();
        log.push(WELCOME.to_owned());
        log.push(REMINDER.to_owned());
        let l = Ledger {
            coffee_plants: 6,
            civets: 3,
            money: 160,
            reputation: 8,
            enclosure_level: 1,
            paperwork_level: 1,
            binturong_home: true,
            goat_present: true,
            inspection: false,
            rng_seed: DEFAULT_SEED,
            log,
        };
        assert(l@.log =~= opening().log) by {
            reveal(lines);
        }
        l
    }

    /// Appends a line to the log, keeping the newest eight.
    pub fn log_line(&mut self, line: String)
        ensures
            final(self)@ == (LedgerView { log: logged(old(self)@.log, line@), ..old(self)@ }),
    {
        log_line(&mut self.log, line);
    }

    /// Draws an index below `max` from the seeded random source.
    pub fn rand_index(&mut self, max: usize) -> (index: usize)
        requires
            max > 0,
        ensures
            final(self)@ == (LedgerView { rng_seed: next_seed(old(self).rng_seed), ..old(self)@ }),
            index == index_of(final(self).rng_seed, max),
            index < max,
    {
        rand_index(&mut self.rng_seed, max)
    }

    /// Starts Operation Bitter Bean when suspicion has reached its ceiling.
    pub fn settle(&mut self, suspicion_full: bool)
        ensures
            final(self)@ == (if suspicion_full {
                LedgerView { inspection: true, log: logged(old(self)@.log, INSPECTION_BEGINS@), ..old(self)@ }
            } else {
                old(self)@
            }),
    {
        if suspicion_full {
            self.inspection = true;
            log_text(&mut self.log, INSPECTION_BEGINS);
        }
    }

    /// Whether `run_action` stays inside the machine types.
    pub fn action_fits(&self, action: EutherCivetAction, reading: Reading) -> (ok: bool)
        ensures
            ok == step_fits(self@, action, reading),
    {
        let money = self.money as i64;
        let reputation = self.reputation as i64;
        let i32_min = i32::MIN as i64;
        let i32_max = i32::MAX as i64;
        if self.inspection {
            match action {
                EutherCivetAction::InspectPaperwork => money - 18 >= i32_min && reputation + 3 <= i32_max,
                EutherCivetAction::InspectTasting => if reading.tasting_stock {
                    money - 8 >= i32_min && reputation + 6 <= i32_max
                } else {
                    reputation - 2 >= i32_min
                },
                EutherCivetAction::InspectGoat => reputation - 4 >= i32_min,
                _ => true,
            }
        } else {
            match action {
                EutherCivetAction::PlantCoffee => self.money < 14 || self.coffee_plants < u32::MAX,
                EutherCivetAction::RoastCoffee => !reading.beans_for_batch || money - 2 >= i32_min,
                EutherCivetAction::SellCoffee => match reading.sale {
                    Some(s) => {
                        let total = money + s.earned as i64;
                        let gain = 1 + s.bag_bonus as i64;
                        i32_min <= total && total <= i32_max && gain <= i32_max
                            && i32_min <= reputation + gain && reputation + gain <= i32_max
                    },
                    None => true,
                },
                EutherCivetAction::ImproveEnclosure => {
                    let scaled = (self.enclosure_level as i32) as i64 * 20;
                    let cost = 45 + scaled;
                    i32_min <= scaled && scaled <= i32_max && cost <= i32_max && (money < cost || (
                    money - cost >= i32_min && money - cost <= i32_max && self.enclosure_level < u32::MAX
                        && reputation + 2 <= i32_max))
                },
                EutherCivetAction::ShowPaperwork => {
                    let scaled = (self.paperwork_level as i32) as i64 * 3;
                    let cost = 16 + scaled;
                    i32_min <= scaled && scaled <= i32_max && cost <= i32_max && (money < cost || (
                    money - cost >= i32_min && money - cost <= i32_max && self.paperwork_level < u32::MAX
                        && reputation + 1 <= i32_max))
                },
                _ => true,
            }
        }
    }

    /// Carries out a player action on the ledger and says how the stocks and
    /// meters move. For a harvest, a bean collection and a sale the host logs
    /// the line, since it names amounts only the host measures.
    pub fn run_action(&mut self, action: EutherCivetAction, reading: Reading) -> (o: Outcome)
        requires
            step_fits(old(self)@, action, reading),
        ensures
            (final(self)@, o) == step(old(self)@, action, reading),
    {
        if self.inspection {
            match action {
                EutherCivetAction::InspectPaperwork => {
                    self.money = self.money - 18;
                    self.reputation = self.reputation + 3;
                    self.inspection = false;
                    log_text(&mut self.log, PAPERWORK_READ);
                    let relief = 4600 + 500 * (self.paperwork_level as i64);
                    return Outcome { effect: effect(-relief, 0, StockMove::Still), routine: false };
                },
                EutherCivetAction::InspectTasting => {
                    let e;
                    if reading.tasting_stock {
                        self.reputation = self.reputation + 6;
                        self.money = self.money - 8;
                        log_text(&mut self.log, TASTING_PASSED);
                        e = effect(-3400, 0, StockMove::TakeRoasted(4));
                    } else {
                        self.reputation = self.reputation - 2;
                        log_text(&mut self.log, TASTING_SPOONS);
                        e = effect(-1200, 0, StockMove::Still);
                    }
                    self.inspection = false;
                    return Outcome { effect: e, routine: false };
                },
                EutherCivetAction::InspectGoat => {
                    self.reputation = self.reputation - 4;
                    self.goat_present = false;
                    self.inspection = false;
                    log_text(&mut self.log, GOAT_LEAVES);
                    return Outcome { effect: effect(-2400, -600, StockMove::Still), routine: false };
                },
                _ => {
                    log_text(&mut self.log, WORK_PAUSED);
                    return Outcome { effect: effect(0, 0, StockMove::Still), routine: false };
                },
            }
        }
        let e = match action {
            EutherCivetAction::PlantCoffee => {
                if self.money >= 14 {
                    self.money = self.money - 14;
                    self.coffee_plants = self.coffee_plants + 1;
                    log_text(&mut self.log, PLANTED);
                    effect(if self.coffee_plants > 18 { 350 } else { 120 }, 0, StockMove::Still)
                } else {
                    log_text(&mut self.log, NO_MONEY_FOR_PLANT);
                    effect(0, 0, StockMove::Still)
                }
            },
            EutherCivetAction::HarvestFruit => effect(0, -80, StockMove::Harvest),
            EutherCivetAction::FeedCivets => {
                if reading.fruit_on_hand && self.civets > 0 {
                    log_text(&mut self.log, CIVETS_FED);
                    effect(-100, 0, StockMove::Feed { sorter: false })
                } else {
                    log_text(&mut self.log, NO_FRUIT);
                    effect(300, -500, StockMove::Still)
                }
            },
            EutherCivetAction::CollectBeans => effect(70, 0, StockMove::Collect),
            EutherCivetAction::RoastCoffee => {
                if reading.beans_for_batch {
                    self.money = self.money - 2;
                    log_text(&mut self.log, ROASTED);
                    effect(80, 0, StockMove::Roast { shed: false })
                } else {
                    log_text(&mut self.log, NO_BEANS);
                    effect(0, 0, StockMove::Still)
                }
            },
            EutherCivetAction::SellCoffee => {
                match reading.sale {
                    Some(s) => {
                        self.money = self.money + s.earned;
                        self.reputation = self.reputation + (1 + s.bag_bonus);
                        effect(if s.large { 400 } else { 120 }, 0, StockMove::Sell)
                    },
                    None => {
                        log_text(&mut self.log, NO_ROASTED);
                        effect(0, 0, StockMove::Still)
                    },
                }
            },
            EutherCivetAction::ImproveEnclosure => {
                let cost = 45 + (self.enclosure_level as i32) * 20;
                if self.money >= cost {
                    self.money = self.money - cost;
                    self.enclosure_level = self.enclosure_level + 1;
                    self.reputation = self.reputation + 2;
                    log_text(&mut self.log, ENCLOSURE_IMPROVED);
                    effect(-800, 1800, StockMove::Still)
                } else {
                    let line = number_line(ENCLOSURE_NEEDS, cost as i64, ".");
                    log_line(&mut self.log, line);
                    effect(0, 0, StockMove::Still)
                }
            },
            EutherCivetAction::ShowPaperwork => {
                let cost = 16 + (self.paperwork_level as i32) * 3;
                if self.money >= cost {
                    self.money = self.money - cost;
                    self.paperwork_level = self.paperwork_level + 1;
                    self.reputation = self.reputation + 1;
                    log_text(&mut self.log, PAPERWORK_SHOWN);
                    effect(-(1800 + 100 * (self.paperwork_level as i64)), 0, StockMove::Still)
                } else {
                    log_text(&mut self.log, NO_MONEY_FOR_PAPERWORK);
                    effect(0, 0, StockMove::Still)
                }
            },
            _ => effect(0, 0, StockMove::Still),
        };
        Outcome { effect: e, routine: true }
    }

    /// The check after a routine action: unhappy civets (below 35) cost a
    /// point of reputation and add two points of suspicion.
    pub fn morale_check(&mut self, unhappy: bool) -> (e: Effect)
        requires
            unhappy ==> old(self).reputation > i32::MIN,
        ensures
            final(self)@ == (if unhappy {
                LedgerView { reputation: (old(self).reputation - 1) as i32, ..old(self)@ }
            } else {
                old(self)@
            }),
            e == (if unhappy { fx(200, 0, StockMove::Still) } else { no_effect() }),
    {
        if unhappy {
            self.reputation = self.reputation - 1;
            effect(200, 0, StockMove::Still)
        } else {
            effect(0, 0, StockMove::Still)
        }
    }

    /// The pressures of one tick outside an inspection, applied in order: a
    /// crowded field (more than 24 plants) adds 0.25 suspicion, a bad name
    /// (negative reputation) adds 0.2.
    pub fn tick_pressure(&self) -> (r: (Effect, Effect))
        ensures
            r.0 == fx(if self.coffee_plants > 24 { 25 } else { 0 }, 0, StockMove::Still),
            r.1 == fx(if self.reputation < 0 { 20 } else { 0 }, 0, StockMove::Still),
    {
        let crowded = effect(if self.coffee_plants > 24 { 25 } else { 0 }, 0, StockMove::Still);
        let disreputable = effect(if self.reputation < 0 { 20 } else { 0 }, 0, StockMove::Still);
        (crowded, disreputable)
    }

    /// Whether `random_event` stays inside the machine types.
    pub fn random_event_fits(&self, content: bool) -> (ok: bool)
        ensures
            ok == random_event_fits(self@, content),
    {
        if self.inspection {
            return true;
        }
        let mut seed = self.rng_seed;
        let i = rand_index(&mut seed, 7);
        if i == 1 {
            self.reputation < i32::MAX
        } else if i == 2 {
            if content { self.reputation <= i32::MAX - 3 } else { self.reputation >= i32::MIN + 4 }
        } else {
            true
        }
    }

    /// Draws and applies a random event, unless an inspection is under way.
    /// `content` says that civet happiness is at least 60.
    pub fn random_event(&mut self, content: bool) -> (e: Effect)
        requires
            random_event_fits(old(self)@, content),
        ensures
            (final(self)@, e) == random_event_rule(old(self)@, content),
    {
        if self.inspection {
            return effect(0, 0, StockMove::Still);
        }
        let i = self.rand_index(7);
        if i == 0 {
            log_text(&mut self.log, POLICE_VISIT);
            effect(700, 0, StockMove::Still)
        } else if i == 1 {
            self.reputation = self.reputation + 1;
            log_text(&mut self.log, JOURNALIST);
            effect(500, 0, StockMove::Still)
        } else if i == 2 {
            if content {
                self.reputation = self.reputation + 3;
                log_text(&mut self.log, WELFARE_PASSES);
                effect(-500, 0, StockMove::Still)
            } else {
                self.reputation = self.reputation - 4;
                log_text(&mut self.log, WELFARE_FAILS);
                effect(1100, 0, StockMove::Still)
            }
        } else if i == 3 {
            log_text(&mut self.log, HELICOPTER);
            effect(1000, 0, StockMove::Still)
        } else if i == 4 {
            self.binturong_home = false;
            log_text(&mut self.log, BINTURONG_ESCAPES);
            effect(800, -400, StockMove::Still)
        } else if i == 5 {
            log_text(&mut self.log, PICKY_CIVET);
            effect(0, -600, StockMove::Still)
        } else {
            self.goat_present = true;
            log_text(&mut self.log, GOAT_APPEARS);
            effect(300, 0, StockMove::Still)
        }
    }
}


/// During an inspection each answer ends it, and any other action only logs
/// that normal work is paused: money, counters, flags and meters stay as they are.
pub proof fn lemma_inspection_gates_actions(v: LedgerView, a: EutherCivetAction, r: Reading)
    requires
        v.inspection,
    ensures
        answers_inspection(a) ==> !step(v, a, r).0.inspection,
        !answers_inspection(a) ==> step(v, a, r) == (
            LedgerView { log: logged(v.log, WORK_PAUSED@), ..v },
            outcome(no_effect(), false),
        ),
{
}

/// Outside an inspection the answers to it do nothing, no action starts an
/// inspection, and every action is followed by the morale check.
pub proof fn lemma_routine_actions(v: LedgerView, a: EutherCivetAction, r: Reading)
    requires
        !v.inspection,
    ensures
        !step(v, a, r).0.inspection,
        step(v, a, r).1.routine,
        answers_inspection(a) ==> step(v, a, r) == (v, outcome(no_effect(), true)),
{
}

/// Planting, enclosure work and paperwork are paid only when the money is
/// there: either the money is untouched or what is left is not negative.
pub proof fn lemma_purchases_never_overdraw(v: LedgerView, a: EutherCivetAction, r: Reading)
    requires
        a == EutherCivetAction::PlantCoffee || a == EutherCivetAction::ImproveEnclosure
            || a == EutherCivetAction::ShowPaperwork,
        step_fits(v, a, r),
    ensures
        step(v, a, r).0.money == v.money || step(v, a, r).0.money >= 0,
{
}

/// A random event never starts or ends an inspection, and during one it
/// changes nothing, not even the random seed.
pub proof fn lemma_random_events_respect_inspection(v: LedgerView, content: bool)
    ensures
        random_event_rule(v, content).0.inspection == v.inspection,
        v.inspection ==> random_event_rule(v, content) == (v, no_effect()),
        !v.inspection ==> random_event_rule(v, content).0.rng_seed == next_seed(v.rng_seed),
{
}

/// After an event tick the next one comes exactly nine ticks later.
pub proof fn lemma_events_every_ninth_tick(frame: int, j: int)
    requires
        frame >= 0,
        event_tick(frame),
        0 < j < 9,
    ensures
        !event_tick(frame + j),
        event_tick(frame + 9),
{
}

/// In the core game a sale pays in exactly the earnings and earns one
/// reputation plus the bag bonus; a shrub costs $14, the enclosure $45 plus
/// $20 per level, the paperwork annex $16 plus $3 per level, each bought only
/// with the money on hand.
pub proof fn lemma_core_prices(v: LedgerView, r: Reading, s: Sale)
    requires
        !v.inspection,
        v.enclosure_level <= i32::MAX,
        v.paperwork_level <= i32::MAX,
        step_fits(v, EutherCivetAction::SellCoffee, Reading { sale: Some(s), ..r }),
        step_fits(v, EutherCivetAction::PlantCoffee, r),
        step_fits(v, EutherCivetAction::ImproveEnclosure, r),
        step_fits(v, EutherCivetAction::ShowPaperwork, r),
    ensures
        step(v, EutherCivetAction::SellCoffee, Reading { sale: Some(s), ..r }).0.money == v.money + s.earned,
        step(v, EutherCivetAction::SellCoffee, Reading { sale: Some(s), ..r }).0.reputation == v.reputation + 1
            + s.bag_bonus,
        v.money >= 14 ==> step(v, EutherCivetAction::PlantCoffee, r).0.money == v.money - 14,
        v.money < 14 ==> step(v, EutherCivetAction::PlantCoffee, r).0.money == v.money,
        v.money >= 45 + 20 * v.enclosure_level ==> step(v, EutherCivetAction::ImproveEnclosure, r).0.money
            == v.money - (45 + 20 * v.enclosure_level),
        v.money >= 16 + 3 * v.paperwork_level ==> step(v, EutherCivetAction::ShowPaperwork, r).0.money
            == v.money - (16 + 3 * v.paperwork_level),
{
}

} // verus!
