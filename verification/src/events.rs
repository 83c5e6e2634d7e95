//! Incident letters: which incident arrives, what it says, and what each of
//! its three answers does.
use vstd::prelude::*;
use crate::effect::{effect, fx, no_effect, Effect, StockMove};
use crate::estate::{Estate, EstateView, EventState, EventView, GameScreen, RandomEventKind, FINAL_DAY};
use crate::journal::logged;
use crate::localization::{in_language, language_text, Language};
use crate::rng::{index_of, next_seed};

verus! {

pub const NO_EVENT_EN: &'static str = "No event is waiting for a decision.";
pub const NO_EVENT_SV: &'static str = "Ingen händelse väntar på beslut.";
pub const NEW_LETTER_EN: &'static str = "New mailbox letter: an incident needs attention in the office.";
pub const NEW_LETTER_SV: &'static str = "Nytt brev i postlådan: en incident kräver uppmärksamhet på kontoret.";

/// The three answers a letter offers.
#[derive(Clone, Copy, Debug, PartialEq, Eq, Structural)]
pub enum EventOption {
    A,
    B,
    C,
}

/// The incident drawn for an index below seven.
pub open spec fn kind_for(i: int) -> RandomEventKind {
    if i == 0 {
        RandomEventKind::PoliceVisit
    } else if i == 1 {
        RandomEventKind::JournalistQuestions
    } else if i == 2 {
        RandomEventKind::WelfareInspection
    } else if i == 3 {
        RandomEventKind::HelicopterOverhead
    } else if i == 4 {
        RandomEventKind::BinturongEscape
    } else if i == 5 {
        RandomEventKind::PickyCivet
    } else {
        RandomEventKind::GoatAppearance
    }
}

pub fn kind_of_index(i: usize) -> (k: RandomEventKind)
    ensures
        k == kind_for(i as int),
{
    if i == 0 {
        RandomEventKind::PoliceVisit
    } else if i == 1 {
        RandomEventKind::JournalistQuestions
    } else if i == 2 {
        RandomEventKind::WelfareInspection
    } else if i == 3 {
        RandomEventKind::HelicopterOverhead
    } else if i == 4 {
        RandomEventKind::BinturongEscape
    } else if i == 5 {
        RandomEventKind::PickyCivet
    } else {
        RandomEventKind::GoatAppearance
    }
}

/// The headline of an incident letter.
pub open spec fn event_title_text(kind: RandomEventKind, language: Language) -> Seq<char> {
    if language == Language::Swedish {
        match kind {
            RandomEventKind::PoliceVisit => "Lokalt polisbesök"@,
            RandomEventKind::JournalistQuestions => "Journalist ställer frågor"@,
            RandomEventKind::WelfareInspection => "Djurskyddsinspektion"@,
            RandomEventKind::HelicopterOverhead => "Helikopter ovanför"@,
            RandomEventKind::BinturongEscape => "Binturong rymmer"@,
            RandomEventKind::PickyCivet => "Palmmård vägrar frukt"@,
            RandomEventKind::GoatAppearance => "Oplanerad get"@,
        }
    } else {
        match kind {
            RandomEventKind::PoliceVisit => "Local Police Visit"@,
            RandomEventKind::JournalistQuestions => "Journalist Asks Questions"@,
            RandomEventKind::WelfareInspection => "Animal Welfare Inspection"@,
            RandomEventKind::HelicopterOverhead => "Helicopter Overhead"@,
            RandomEventKind::BinturongEscape => "Binturong Escape"@,
            RandomEventKind::PickyCivet => "Civet Refuses Fruit"@,
            RandomEventKind::GoatAppearance => "Unscheduled Goat"@,
        }
    }
}

pub fn event_title(kind: RandomEventKind, language: Language) -> (s: &'static str)
    ensures
        s@ == event_title_text(kind, language),
{
    if language == Language::Swedish {
        match kind {
            RandomEventKind::PoliceVisit => "Lokalt polisbesök",
            RandomEventKind::JournalistQuestions => "Journalist ställer frågor",
            RandomEventKind::WelfareInspection => "Djurskyddsinspektion",
            RandomEventKind::HelicopterOverhead => "Helikopter ovanför",
            RandomEventKind::BinturongEscape => "Binturong rymmer",
            RandomEventKind::PickyCivet => "Palmmård vägrar frukt",
            RandomEventKind::GoatAppearance => "Oplanerad get",
        }
    } else {
        match kind {
            RandomEventKind::PoliceVisit => "Local Police Visit",
            RandomEventKind::JournalistQuestions => "Journalist Asks Questions",
            RandomEventKind::WelfareInspection => "Animal Welfare Inspection",
            RandomEventKind::HelicopterOverhead => "Helicopter Overhead",
            RandomEventKind::BinturongEscape => "Binturong Escape",
            RandomEventKind::PickyCivet => "Civet Refuses Fruit",
            RandomEventKind::GoatAppearance => "Unscheduled Goat",
        }
    }
}

/// The text of an incident letter.
pub open spec fn event_body_text(kind: RandomEventKind, language: Language) -> Seq<char> {
    if language == Language::Swedish {
        match kind {
            RandomEventKind::PoliceVisit => "Två poliser kommer för att fråga varför den lagliga kaffeegendomen har perimeterplan och spegelsolglasögon."@,
            RandomEventKind::JournalistQuestions => "En reporter vill ha rundtur, citat och en rimlig förklaring till uttrycket 'bönkedja för ansvar'."@,
            RandomEventKind::WelfareInspection => "En djurskyddsinspektör har skrivplatta, bra skor och mycket specifika krav på palmmårdsberikning."@,
            RandomEventKind::HelicopterOverhead => "En helikopter cirklar lågt nog för att läsa kaffesäckarna och uttala 'palmmård' fel på radion."@,
            RandomEventKind::BinturongEscape => "Binturongen lämnar hägnet med en aktieägares tysta självförtroende."@,
            RandomEventKind::PickyCivet => "En palmmård avvisar dagens frukturval och håller ögonkontakt med alla ansvariga."@,
            RandomEventKind::GoatAppearance => "En get dyker upp i pappersrummet. Ingen anställde den. Ingen kan bevisa motsatsen."@,
        }
    } else {
        match kind {
            RandomEventKind::PoliceVisit => "Two officers arrive to ask why the legal coffee estate has a perimeter plan and mirrored sunglasses."@,
            RandomEventKind::JournalistQuestions => "A reporter wants a tour, a quote, and a plausible explanation for the phrase 'bean chain of custody'."@,
            RandomEventKind::WelfareInspection => "An animal welfare inspector has a clipboard, good shoes, and very specific civet enrichment expectations."@,
            RandomEventKind::HelicopterOverhead => "A helicopter circles low enough to read the coffee bags and mispronounce 'civet' on the radio."@,
            RandomEventKind::BinturongEscape => "The binturong exits its enclosure with the quiet confidence of a shareholder."@,
            RandomEventKind::PickyCivet => "A civet rejects today's fruit selection and makes eye contact with everyone responsible."@,
            RandomEventKind::GoatAppearance => "A goat appears inside the paperwork room. No one hired it. No one can prove that."@,
        }
    }
}

pub fn event_body(kind: RandomEventKind, language: Language) -> (s: &'static str)
    ensures
        s@ == event_body_text(kind, language),
{
    if language == Language::Swedish {
        match kind {
            RandomEventKind::PoliceVisit => "Två poliser kommer för att fråga varför den lagliga kaffeegendomen har perimeterplan och spegelsolglasögon.",
            RandomEventKind::JournalistQuestions => "En reporter vill ha rundtur, citat och en rimlig förklaring till uttrycket 'bönkedja för ansvar'.",
            RandomEventKind::WelfareInspection => "En djurskyddsinspektör har skrivplatta, bra skor och mycket specifika krav på palmmårdsberikning.",
            RandomEventKind::HelicopterOverhead => "En helikopter cirklar lågt nog för att läsa kaffesäckarna och uttala 'palmmård' fel på radion.",
            RandomEventKind::BinturongEscape => "Binturongen lämnar hägnet med en aktieägares tysta självförtroende.",
            RandomEventKind::PickyCivet => "En palmmård avvisar dagens frukturval och håller ögonkontakt med alla ansvariga.",
            RandomEventKind::GoatAppearance => "En get dyker upp i pappersrummet. Ingen anställde den. Ingen kan bevisa motsatsen.",
        }
    } else {
        match kind {
            RandomEventKind::PoliceVisit => "Two officers arrive to ask why the legal coffee estate has a perimeter plan and mirrored sunglasses.",
            RandomEventKind::JournalistQuestions => "A reporter wants a tour, a quote, and a plausible explanation for the phrase 'bean chain of custody'.",
            RandomEventKind::WelfareInspection => "An animal welfare inspector has a clipboard, good shoes, and very specific civet enrichment expectations.",
            RandomEventKind::HelicopterOverhead => "A helicopter circles low enough to read the coffee bags and mispronounce 'civet' on the radio.",
            RandomEventKind::BinturongEscape => "The binturong exits its enclosure with the quiet confidence of a shareholder.",
            RandomEventKind::PickyCivet => "A civet rejects today's fruit selection and makes eye contact with everyone responsible.",
            RandomEventKind::GoatAppearance => "A goat appears inside the paperwork room. No one hired it. No one can prove that.",
        }
    }
}

/// The button labels of the three answers to an incident.
pub open spec fn option_labels(kind: RandomEventKind) -> (Seq<char>, Seq<char>, Seq<char>) {
    match kind {
        RandomEventKind::PoliceVisit => ("Show bean paperwork"@, "Offer coffee tasting"@, "Answer vaguely"@),
        RandomEventKind::JournalistQuestions => ("Invite full civet tour"@, "Control the tour route"@, "No comment"@),
        RandomEventKind::WelfareInspection => ("Buy enrichment now"@, "Open every enclosure"@, "Reschedule politely"@),
        RandomEventKind::HelicopterOverhead => ("Deploy coffee tarps"@, "Wave cheerfully"@, "Hide everyone"@),
        RandomEventKind::BinturongEscape => ("Hire caretaker"@, "Let fame happen"@, "Send the goat"@),
        RandomEventKind::PickyCivet => ("Serve best fruit"@, "Import better fruit"@, "Insist it is fine"@),
        RandomEventKind::GoatAppearance => ("Put goat on payroll"@, "Remove goat quietly"@, "Blame goat early"@),
    }
}

pub fn event_option_labels(kind: RandomEventKind) -> (r: (&'static str, &'static str, &'static str))
    ensures
        (r.0@, r.1@, r.2@) == option_labels(kind),
{
    match kind {
        RandomEventKind::PoliceVisit => ("Show bean paperwork", "Offer coffee tasting", "Answer vaguely"),
        RandomEventKind::JournalistQuestions => ("Invite full civet tour", "Control the tour route", "No comment"),
        RandomEventKind::WelfareInspection => ("Buy enrichment now", "Open every enclosure", "Reschedule politely"),
        RandomEventKind::HelicopterOverhead => ("Deploy coffee tarps", "Wave cheerfully", "Hide everyone"),
        RandomEventKind::BinturongEscape => ("Hire caretaker", "Let fame happen", "Send the goat"),
        RandomEventKind::PickyCivet => ("Serve best fruit", "Import better fruit", "Insist it is fine"),
        RandomEventKind::GoatAppearance => ("Put goat on payroll", "Remove goat quietly", "Blame goat early"),
    }
}

/// What an answer does: money and reputation changes, its effect on the
/// stocks and meters, the binturong and goat flags it sets, and the line it logs.
pub struct Ruling {
    pub money: i32,
    pub reputation: i32,
    pub effect: Effect,
    pub binturong_home: Option<bool>,
    pub goat_present: Option<bool>,
    pub en: &'static str,
    pub sv: &'static str,
}

pub struct RulingView {
    pub money: int,
    pub reputation: int,
    pub effect: Effect,
    pub binturong_home: Option<bool>,
    pub goat_present: Option<bool>,
    pub en: Seq<char>,
    pub sv: Seq<char>,
}

impl View for Ruling {
    type V = RulingView;

    open spec fn view(&self) -> RulingView {
        RulingView {
            money: self.money as int,
            reputation: self.reputation as int,
            effect: self.effect,
            binturong_home: self.binturong_home,
            goat_present: self.goat_present,
            en: self.en@,
            sv: self.sv@,
        }
    }
}

/// The ruling for an answer; `p` is the paperwork level and `content` says
/// that civet happiness is at least 60.
#[verifier::opaque]
pub open spec fn ruling_for(kind: RandomEventKind, option: EventOption, p: int, content: bool) -> RulingView {
    match kind {
        RandomEventKind::PoliceVisit => match option {
            EventOption::A => RulingView { money: -14, reputation: 1, effect: fx(-(1300 + 150 * p as int), 0, StockMove::Still), binturong_home: None, goat_present: None, en: "Police accept the paperwork and leave with a laminated bean diagram."@, sv: "Polisen godtar pappren och går med ett laminerat böndiagram."@ },
            EventOption::B => RulingView { money: 0, reputation: 2, effect: fx(-800, 0, StockMove::TakeRoasted(2)), binturong_home: None, goat_present: None, en: "Officers attend a tasting and downgrade the threat to 'nutty finish'."@, sv: "Poliserna deltar i en provning och nedgraderar hotet till 'nötig eftersmak'."@ },
            EventOption::C => RulingView { money: 0, reputation: -2, effect: fx(900, 0, StockMove::Still), binturong_home: None, goat_present: None, en: "You answer evasively. The officers write 'too much coffee confidence'."@, sv: "Du svarar undvikande. Poliserna skriver 'för mycket kaffesjälvförtroende'."@ },
        },
        RandomEventKind::JournalistQuestions => match option {
            EventOption::A => RulingView { money: 0, reputation: 4, effect: fx(400, 0, StockMove::Still), binturong_home: None, goat_present: None, en: "The journalist loves the civets. The headline still uses 'mysterious'."@, sv: "Journalisten älskar palmmårdarna. Rubriken använder ändå 'mystiskt'."@ },
            EventOption::B => RulingView { money: -20, reputation: 1, effect: fx(-900, 0, StockMove::Still), binturong_home: None, goat_present: None, en: "You give a controlled tour. Every label says 'coffee' twice."@, sv: "Du ger en kontrollerad rundtur. Varje etikett säger 'kaffe' två gånger."@ },
            EventOption::C => RulingView { money: 0, reputation: -3, effect: fx(1200, 0, StockMove::Still), binturong_home: None, goat_present: None, en: "No comment becomes the story. The goat is photographed in profile."@, sv: "Ingen kommentar blir själva nyheten. Geten fotograferas i profil."@ },
        },
        RandomEventKind::WelfareInspection => match option {
            EventOption::A => RulingView { money: -24, reputation: 3, effect: fx(-500, 1200, StockMove::Still), binturong_home: None, goat_present: None, en: "Emergency enrichment deployed. Civets receive excellent tiny furniture."@, sv: "Akut berikning sätts in. Palmmårdarna får utmärkta små möbler."@ },
            EventOption::B => if content {
                RulingView { money: 0, reputation: 4, effect: fx(-700, 0, StockMove::Still), binturong_home: None, goat_present: None, en: "Inspection passes. Civets look professionally satisfied."@, sv: "Inspektionen godkänns. Palmmårdarna ser professionellt nöjda ut."@ }
            } else {
                RulingView { money: 0, reputation: -4, effect: fx(1000, 0, StockMove::Still), binturong_home: None, goat_present: None, en: "Inspection finds disappointed civets and suspiciously tidy excuses."@, sv: "Inspektionen hittar besvikna palmmårdar och misstänkt prydliga ursäkter."@ }
            },
            EventOption::C => RulingView { money: -10, reputation: -1, effect: fx(200, 0, StockMove::Still), binturong_home: None, goat_present: None, en: "You reschedule. It works, but the clipboard remembers."@, sv: "Du bokar om. Det fungerar, men skrivplattan minns."@ },
        },
        RandomEventKind::HelicopterOverhead => match option {
            EventOption::A => RulingView { money: -12, reputation: 0, effect: fx(-700, 0, StockMove::Still), binturong_home: None, goat_present: None, en: "Reflective coffee tarps deployed. Perfectly normal agricultural behavior."@, sv: "Reflekterande kaffepresenningar läggs ut. Fullt normalt jordbruksbeteende."@ },
            EventOption::B => RulingView { money: 0, reputation: 2, effect: fx(500, 0, StockMove::Still), binturong_home: None, goat_present: None, en: "You wave cheerfully. This is either innocence or advanced theater."@, sv: "Du vinkar glatt. Det är antingen oskuld eller avancerad teater."@ },
            EventOption::C => RulingView { money: 0, reputation: 0, effect: fx(1300, 0, StockMove::Still), binturong_home: None, goat_present: None, en: "Everyone hides. The helicopter learns nothing and suspects everything."@, sv: "Alla gömmer sig. Helikoptern lär sig inget och misstänker allt."@ },
        },
        RandomEventKind::BinturongEscape => match option {
            EventOption::A => RulingView { money: -16, reputation: 0, effect: fx(-400, 300, StockMove::Still), binturong_home: Some(true), goat_present: None, en: "A caretaker retrieves the binturong with snacks and quiet bargaining."@, sv: "En djurskötare hämtar binturongen med snacks och lågmäld förhandling."@ },
            EventOption::B => RulingView { money: 0, reputation: 1, effect: fx(700, 0, StockMove::Still), binturong_home: Some(false), goat_present: None, en: "The binturong becomes a local celebrity and a regulatory problem."@, sv: "Binturongen blir lokal kändis och ett regelverksproblem."@ },
            EventOption::C => RulingView { money: 0, reputation: -1, effect: fx(300, 0, StockMove::Still), binturong_home: Some(true), goat_present: Some(true), en: "The goat is sent as negotiator. Nobody understands why it works."@, sv: "Geten skickas som förhandlare. Ingen förstår varför det fungerar."@ },
        },
        RandomEventKind::PickyCivet => match option {
            EventOption::A => RulingView { money: 0, reputation: 1, effect: fx(0, 1000, StockMove::TakeFruit(8)), binturong_home: None, goat_present: None, en: "Only the best fruit is served. The civet accepts tribute."@, sv: "Bara den bästa frukten serveras. Palmmården accepterar tributet."@ },
            EventOption::B => RulingView { money: -18, reputation: 0, effect: fx(-200, 800, StockMove::Still), binturong_home: None, goat_present: None, en: "Imported fruit arrives with more documentation than the staff."@, sv: "Importerad frukt anländer med mer dokumentation än personalen."@ },
            EventOption::C => RulingView { money: 0, reputation: -1, effect: fx(400, -900, StockMove::Still), binturong_home: None, goat_present: None, en: "You insist the fruit is fine. The civet disagrees in silence."@, sv: "Du insisterar på att frukten duger. Palmmården håller tyst medvetet."@ },
        },
        RandomEventKind::GoatAppearance => match option {
            EventOption::A => RulingView { money: 0, reputation: 1, effect: fx(200, 0, StockMove::Still), binturong_home: None, goat_present: Some(true), en: "The goat is listed as unpaid compliance intern."@, sv: "Geten listas som obetald compliance-praktikant."@ },
            EventOption::B => RulingView { money: -9, reputation: 0, effect: fx(-400, 0, StockMove::Still), binturong_home: None, goat_present: Some(false), en: "The goat is escorted off-site by a very serious courier."@, sv: "Geten eskorteras bort av ett mycket allvarligt bud."@ },
            EventOption::C => RulingView { money: 0, reputation: 0, effect: fx(-200, 200, StockMove::Still), binturong_home: None, goat_present: Some(true), en: "You blame the goat preemptively. Oddly, morale improves."@, sv: "Du skyller förebyggande på geten. Märkligt nog förbättras moralen."@ },
        },
    }
}

pub fn ruling(kind: RandomEventKind, option: EventOption, p: u32, content: bool) -> (r: Ruling)
    ensures
        r@ == ruling_for(kind, option, p as int, content),
{
    reveal(ruling_for);
    match kind {
        RandomEventKind::PoliceVisit => match option {
            EventOption::A => Ruling { money: -14, reputation: 1, effect: effect(-(1300 + 150 * (p as i64)), 0, StockMove::Still), binturong_home: None, goat_present: None, en: "Police accept the paperwork and leave with a laminated bean diagram.", sv: "Polisen godtar pappren och går med ett laminerat böndiagram." },
            EventOption::B => Ruling { money: 0, reputation: 2, effect: effect(-800, 0, StockMove::TakeRoasted(2)), binturong_home: None, goat_present: None, en: "Officers attend a tasting and downgrade the threat to 'nutty finish'.", sv: "Poliserna deltar i en provning och nedgraderar hotet till 'nötig eftersmak'." },
            EventOption::C => Ruling { money: 0, reputation: -2, effect: effect(900, 0, StockMove::Still), binturong_home: None, goat_present: None, en: "You answer evasively. The officers write 'too much coffee confidence'.", sv: "Du svarar undvikande. Poliserna skriver 'för mycket kaffesjälvförtroende'." },
        },
        RandomEventKind::JournalistQuestions => match option {
            EventOption::A => Ruling { money: 0, reputation: 4, effect: effect(400, 0, StockMove::Still), binturong_home: None, goat_present: None, en: "The journalist loves the civets. The headline still uses 'mysterious'.", sv: "Journalisten älskar palmmårdarna. Rubriken använder ändå 'mystiskt'." },
            EventOption::B => Ruling { money: -20, reputation: 1, effect: effect(-900, 0, StockMove::Still), binturong_home: None, goat_present: None, en: "You give a controlled tour. Every label says 'coffee' twice.", sv: "Du ger en kontrollerad rundtur. Varje etikett säger 'kaffe' två gånger." },
            EventOption::C => Ruling { money: 0, reputation: -3, effect: effect(1200, 0, StockMove::Still), binturong_home: None, goat_present: None, en: "No comment becomes the story. The goat is photographed in profile.", sv: "Ingen kommentar blir själva nyheten. Geten fotograferas i profil." },
        },
        RandomEventKind::WelfareInspection => match option {
            EventOption::A => Ruling { money: -24, reputation: 3, effect: effect(-500, 1200, StockMove::Still), binturong_home: None, goat_present: None, en: "Emergency enrichment deployed. Civets receive excellent tiny furniture.", sv: "Akut berikning sätts in. Palmmårdarna får utmärkta små möbler." },
            EventOption::B => if content {
                Ruling { money: 0, reputation: 4, effect: effect(-700, 0, StockMove::Still), binturong_home: None, goat_present: None, en: "Inspection passes. Civets look professionally satisfied.", sv: "Inspektionen godkänns. Palmmårdarna ser professionellt nöjda ut." }
            } else {
                Ruling { money: 0, reputation: -4, effect: effect(1000, 0, StockMove::Still), binturong_home: None, goat_present: None, en: "Inspection finds disappointed civets and suspiciously tidy excuses.", sv: "Inspektionen hittar besvikna palmmårdar och misstänkt prydliga ursäkter." }
            },
            EventOption::C => Ruling { money: -10, reputation: -1, effect: effect(200, 0, StockMove::Still), binturong_home: None, goat_present: None, en: "You reschedule. It works, but the clipboard remembers.", sv: "Du bokar om. Det fungerar, men skrivplattan minns." },
        },
        RandomEventKind::HelicopterOverhead => match option {
            EventOption::A => Ruling { money: -12, reputation: 0, effect: effect(-700, 0, StockMove::Still), binturong_home: None, goat_present: None, en: "Reflective coffee tarps deployed. Perfectly normal agricultural behavior.", sv: "Reflekterande kaffepresenningar läggs ut. Fullt normalt jordbruksbeteende." },
            EventOption::B => Ruling { money: 0, reputation: 2, effect: effect(500, 0, StockMove::Still), binturong_home: None, goat_present: None, en: "You wave cheerfully. This is either innocence or advanced theater.", sv: "Du vinkar glatt. Det är antingen oskuld eller avancerad teater." },
            EventOption::C => Ruling { money: 0, reputation: 0, effect: effect(1300, 0, StockMove::Still), binturong_home: None, goat_present: None, en: "Everyone hides. The helicopter learns nothing and suspects everything.", sv: "Alla gömmer sig. Helikoptern lär sig inget och misstänker allt." },
        },
        RandomEventKind::BinturongEscape => match option {
            EventOption::A => Ruling { money: -16, reputation: 0, effect: effect(-400, 300, StockMove::Still), binturong_home: Some(true), goat_present: None, en: "A caretaker retrieves the binturong with snacks and quiet bargaining.", sv: "En djurskötare hämtar binturongen med snacks och lågmäld förhandling." },
            EventOption::B => Ruling { money: 0, reputation: 1, effect: effect(700, 0, StockMove::Still), binturong_home: Some(false), goat_present: None, en: "The binturong becomes a local celebrity and a regulatory problem.", sv: "Binturongen blir lokal kändis och ett regelverksproblem." },
            EventOption::C => Ruling { money: 0, reputation: -1, effect: effect(300, 0, StockMove::Still), binturong_home: Some(true), goat_present: Some(true), en: "The goat is sent as negotiator. Nobody understands why it works.", sv: "Geten skickas som förhandlare. Ingen förstår varför det fungerar." },
        },
        RandomEventKind::PickyCivet => match option {
            EventOption::A => Ruling { money: 0, reputation: 1, effect: effect(0, 1000, StockMove::TakeFruit(8)), binturong_home: None, goat_present: None, en: "Only the best fruit is served. The civet accepts tribute.", sv: "Bara den bästa frukten serveras. Palmmården accepterar tributet." },
            EventOption::B => Ruling { money: -18, reputation: 0, effect: effect(-200, 800, StockMove::Still), binturong_home: None, goat_present: None, en: "Imported fruit arrives with more documentation than the staff.", sv: "Importerad frukt anländer med mer dokumentation än personalen." },
            EventOption::C => Ruling { money: 0, reputation: -1, effect: effect(400, -900, StockMove::Still), binturong_home: None, goat_present: None, en: "You insist the fruit is fine. The civet disagrees in silence.", sv: "Du insisterar på att frukten duger. Palmmården håller tyst medvetet." },
        },
        RandomEventKind::GoatAppearance => match option {
            EventOption::A => Ruling { money: 0, reputation: 1, effect: effect(200, 0, StockMove::Still), binturong_home: None, goat_present: Some(true), en: "The goat is listed as unpaid compliance intern.", sv: "Geten listas som obetald compliance-praktikant." },
            EventOption::B => Ruling { money: -9, reputation: 0, effect: effect(-400, 0, StockMove::Still), binturong_home: None, goat_present: Some(false), en: "The goat is escorted off-site by a very serious courier.", sv: "Geten eskorteras bort av ett mycket allvarligt bud." },
            EventOption::C => Ruling { money: 0, reputation: 0, effect: effect(-200, 200, StockMove::Still), binturong_home: None, goat_present: Some(true), en: "You blame the goat preemptively. Oddly, morale improves.", sv: "Du skyller förebyggande på geten. Märkligt nog förbättras moralen." },
        },
    }
}

pub open spec fn fits_i32(x: int) -> bool {
    i32::MIN <= x <= i32::MAX
}

/// The estate after a ruling is carried out: the letter is gone, money and
/// reputation move, the flags are set, the line is logged, visuals redrawn.
pub open spec fn ruled(v: EstateView, r: RulingView) -> EstateView {
    EstateView {
        event: None,
        money: v.money + r.money,
        reputation: v.reputation + r.reputation,
        binturong_home: match r.binturong_home {
            Some(b) => b,
            None => v.binturong_home,
        },
        goat_present: match r.goat_present {
            Some(b) => b,
            None => v.goat_present,
        },
        log: logged(v.log, in_language(v.language, r.en, r.sv)),
        dirty_visuals: true,
        ..v
    }
}

/// The rule for answering the waiting letter: the letter is consumed, its
/// ruling applied, and the meters are clamped afterwards (the `bool`).
/// Without a letter only a notice is logged.
pub open spec fn resolve_event_rule(v: EstateView, option: EventOption, content: bool) -> (EstateView, Effect, bool) {
    match v.event {
        None => (
            EstateView { log: logged(v.log, in_language(v.language, NO_EVENT_EN@, NO_EVENT_SV@)), ..v },
            no_effect(),
            false,
        ),
        Some(e) => {
            let r = ruling_for(e.kind, option, v.paperwork_level, content);
            (
                ruled(v, r),
                r.effect,
                true,
            )
        },
    }
}

pub open spec fn resolve_event_fits(v: EstateView, option: EventOption, content: bool) -> bool {
    match v.event {
        None => true,
        Some(e) => {
            let r = ruling_for(e.kind, option, v.paperwork_level, content);
            fits_i32(v.money + r.money) && fits_i32(v.reputation + r.reputation)
        },
    }
}

/// The simulation runs: the game is on screen, and no inspection, day report
/// or final result holds it.
pub open spec fn simulation_live(v: EstateView) -> bool {
    &&& v.screen == GameScreen::Playing
    &&& !v.inspection
    &&& v.day_report is None
    &&& v.game_result is None
}

pub open spec fn min_u32(a: int, b: int) -> int {
    if a <= b { a } else { b }
}

/// The rule for the incident timer: while the simulation runs and no letter
/// waits, a new incident letter arrives, due two days later (at most day 7).
pub open spec fn post_event_rule(v: EstateView) -> EstateView {
    if !simulation_live(v) || v.event is Some {
        v
    } else {
        let seed = next_seed(v.rng_seed);
        let kind = kind_for(index_of(seed, 7) as int);
        EstateView {
            rng_seed: seed,
            event: Some(EventView {
                kind,
                title: event_title_text(kind, v.language),
                body: event_body_text(kind, v.language),
                due_day: min_u32(v.day + 2, FINAL_DAY as int) as u32,
            }),
            log: logged(v.log, in_language(v.language, NEW_LETTER_EN@, NEW_LETTER_SV@)),
            ..v
        }
    }
}

impl Estate {
    /// Whether the simulation runs (see `simulation_live`).
    pub fn simulation_live(&self) -> (b: bool)
        ensures
            b == simulation_live(self@),
    {
        self.screen == GameScreen::Playing && !self.inspection && self.day_report.is_none()
            && self.game_result.is_none()
    }

    /// Whether `resolve_event` stays inside the machine types.
    pub fn resolve_event_fits(&self, option: EventOption, content: bool) -> (ok: bool)
        ensures
            ok == resolve_event_fits(self@, option, content),
    {
        match &self.event {
            None => true,
            Some(e) => {
                let r = ruling(e.kind, option, self.paperwork_level, content);
                let money = self.money as i64 + r.money as i64;
                let rep = self.reputation as i64 + r.reputation as i64;
                i32::MIN as i64 <= money && money <= i32::MAX as i64 && i32::MIN as i64 <= rep
                    && rep <= i32::MAX as i64
            },
        }
    }

    /// Answers the waiting incident letter; `content` says that civet
    /// happiness is at least 60. Returns the effect on the stocks and meters
    /// and whether the host clamps them afterwards.
    pub fn resolve_event(&mut self, option: EventOption, content: bool) -> (r: (Effect, bool))
        requires
            resolve_event_fits(old(self)@, option, content),
        ensures
            (final(self)@, r.0, r.1) == resolve_event_rule(old(self)@, option, content),
    {
        let kind = match &self.event {
            Some(e) => e.kind,
            None => {
                let line = language_text(self.language, NO_EVENT_EN, NO_EVENT_SV);
                self.log_text(line);
                return (effect(0, 0, StockMove::Still), false);
            },
        };
        let r = ruling(kind, option, self.paperwork_level, content);
        self.apply_ruling(&r);
        (r.effect, true)
    }

    /// Carries out a ruling on the estate.
    pub fn apply_ruling(&mut self, r: &Ruling)
        requires
            fits_i32(old(self).money + r.money),
            fits_i32(old(self).reputation + r.reputation),
        ensures
            final(self)@ == ruled(old(self)@, r@),
    {
        let binturong_home = match r.binturong_home {
            Some(b) => b,
            None => self.binturong_home,
        };
        let goat_present = match r.goat_present {
            Some(g) => g,
            None => self.goat_present,
        };
        let line = language_text(self.language, r.en, r.sv);
        self.event = None;
        self.money = self.money + r.money;
        self.reputation = self.reputation + r.reputation;
        self.binturong_home = binturong_home;
        self.goat_present = goat_present;
        self.dirty_visuals = true;
        self.log_text(line);
    }

    /// Posts a new incident letter when the simulation runs and none waits;
    /// says whether one was posted.
    pub fn post_random_event(&mut self) -> (posted: bool)
        requires
            old(self).day <= u32::MAX - 2,
        ensures
            final(self)@ == post_event_rule(old(self)@),
            posted == (simulation_live(old(self)@) && old(self).event is None),
    {
        if !self.simulation_live() || self.event.is_some() {
            return false;
        }
        let i = self.rand_index(7);
        let kind = kind_of_index(i);
        let due = if self.day + 2 <= FINAL_DAY { self.day + 2 } else { FINAL_DAY };
        let letter = EventState {
            kind,
            title: event_title(kind, self.language).to_owned(),
            body: event_body(kind, self.language).to_owned(),
            due_day: due,
        };
        self.event = Some(letter);
        let line = language_text(self.language, NEW_LETTER_EN, NEW_LETTER_SV);
        self.log_text(line);
        true
    }
}

} // verus!
