//! Words and place names in the two languages of the plantation.
use vstd::prelude::*;
use crate::text::same_text;

verus! {

#[derive(Clone, Copy, Debug, PartialEq, Eq, Structural)]
pub enum Language {
    English,
    Swedish,
}

#[derive(Clone, Copy, Debug, PartialEq, Eq, Structural)]
pub enum PlantationRoom {
    Sanctuary,
    CoffeeField,
    Roastery,
    PaperworkOffice,
}

/// The text in the given language.
pub open spec fn in_language(language: Language, en: Seq<char>, sv: Seq<char>) -> Seq<char> {
    if language == Language::Swedish { sv } else { en }
}

pub fn language_text(language: Language, en: &'static str, sv: &'static str) -> (s: &'static str)
    ensures
        s@ == in_language(language, en@, sv@),
{
    if language == Language::Swedish {
        sv
    } else {
        en
    }
}

/// The name of a room.
pub open spec fn room_title(room: PlantationRoom, language: Language) -> Seq<char> {
    if language == Language::Swedish {
        match room {
            PlantationRoom::Sanctuary => "Fristad"@,
            PlantationRoom::CoffeeField => "Kaffefält"@,
            PlantationRoom::Roastery => "Rosteri"@,
            PlantationRoom::PaperworkOffice => "Papperskontor"@,
        }
    } else {
        match room {
            PlantationRoom::Sanctuary => "Sanctuary"@,
            PlantationRoom::CoffeeField => "Coffee Field"@,
            PlantationRoom::Roastery => "Roastery"@,
            PlantationRoom::PaperworkOffice => "Paperwork Office"@,
        }
    }
}

/// The name of a room in its definite form (Swedish adds the article; English
/// keeps the plain name).
pub open spec fn room_title_definite(room: PlantationRoom, language: Language) -> Seq<char> {
    if language == Language::Swedish {
        match room {
            PlantationRoom::Sanctuary => "Fristaden"@,
            PlantationRoom::CoffeeField => "Kaffefältet"@,
            PlantationRoom::Roastery => "Rosteriet"@,
            PlantationRoom::PaperworkOffice => "Papperskontoret"@,
        }
    } else {
        room_title(room, language)
    }
}

pub fn room_name(room: PlantationRoom, language: Language) -> (s: &'static str)
    ensures
        s@ == room_title(room, language),
{
    if language == Language::Swedish {
        match room {
            PlantationRoom::Sanctuary => "Fristad",
            PlantationRoom::CoffeeField => "Kaffefält",
            PlantationRoom::Roastery => "Rosteri",
            PlantationRoom::PaperworkOffice => "Papperskontor",
        }
    } else {
        match room {
            PlantationRoom::Sanctuary => "Sanctuary",
            PlantationRoom::CoffeeField => "Coffee Field",
            PlantationRoom::Roastery => "Roastery",
            PlantationRoom::PaperworkOffice => "Paperwork Office",
        }
    }
}

pub fn room_name_definite(room: PlantationRoom, language: Language) -> (s: &'static str)
    ensures
        s@ == room_title_definite(room, language),
{
    if language == Language::Swedish {
        match room {
            PlantationRoom::Sanctuary => "Fristaden",
            PlantationRoom::CoffeeField => "Kaffefältet",
            PlantationRoom::Roastery => "Rosteriet",
            PlantationRoom::PaperworkOffice => "Papperskontoret",
        }
    } else {
        room_name(room, language)
    }
}

/// The room named in a "moved to" line: the definite form.
pub fn room_label(room: PlantationRoom, language: Language) -> (s: &'static str)
    ensures
        s@ == room_title_definite(room, language),
{
    room_name_definite(room, language)
}

/// The label a world sprite shows for a key; an unknown key is shown as is.
pub open spec fn world_text(language: Language, key: Seq<char>) -> Seq<char> {
    if language == Language::Swedish {
        if key == "owner"@ {
            "plantageägare"@
        } else if key == "fruit"@ {
            "frukt"@
        } else if key == "seedlings"@ {
            "plantor"@
        } else if key == "fruit_on_hand"@ {
            "Kaffefrukt i säcken"@
        } else if key == "civet_garden"@ {
            "palmmårdsträdgård"@
        } else if key == "binturong"@ {
            "binturong"@
        } else if key == "snack_trays"@ {
            "snackbrickor"@
        } else if key == "roaster"@ {
            "ROSTARE"@
        } else if key == "coffee"@ {
            "kaffe"@
        } else if key == "bean_crate"@ {
            "bönlåda"@
        } else if key == "police_helicopter"@ {
            "polishelikopter"@
        } else if key == "suspicion"@ {
            "Misstanke"@
        } else if key == "field_goat"@ {
            "fältget?"@
        } else if key == "goat"@ {
            "get?"@
        } else if key == "witness"@ {
            "vittne"@
        } else if key == "field_hint"@ {
            "Bästa knapparna här: Plantera kaffe, Skörda frukt, Mata palmmårdar."@
        } else if key == "sanctuary_hint"@ {
            "Klicka på en palmmård för att mata, klappa, granska anteckningar och bygga tillgivenhet."@
        } else if key == "roastery_hint"@ {
            "Bästa knapparna här: Samla bönor, Rosta kaffe, Sälj kaffe."@
        } else if key == "office_hint"@ {
            "Bästa knapparna här: Visa papper, bygg kontorsuppgraderingar, håll dig lugn."@
        } else if key == "processed_beans"@ {
            "Processade bönor"@
        } else if key == "roasted_bags"@ {
            "Rostade säckar"@
        } else if key == "paperwork_level"@ {
            "Pappersnivå"@
        } else if key == "sleepy"@ {
            "sömnig"@
        } else if key == "hungry"@ {
            "hungrig"@
        } else if key == "curious"@ {
            "nyfiken"@
        } else if key == "content"@ {
            "nöjd"@
        } else {
            key
        }
    } else {
        if key == "owner"@ {
            "plantation owner"@
        } else if key == "fruit"@ {
            "fruit"@
        } else if key == "seedlings"@ {
            "seedlings"@
        } else if key == "fruit_on_hand"@ {
            "Coffee fruit on hand"@
        } else if key == "civet_garden"@ {
            "civet garden"@
        } else if key == "binturong"@ {
            "binturong"@
        } else if key == "snack_trays"@ {
            "snack trays"@
        } else if key == "roaster"@ {
            "ROASTER"@
        } else if key == "coffee"@ {
            "coffee"@
        } else if key == "bean_crate"@ {
            "bean crate"@
        } else if key == "police_helicopter"@ {
            "police helicopter"@
        } else if key == "suspicion"@ {
            "Suspicion"@
        } else if key == "field_goat"@ {
            "field goat?"@
        } else if key == "goat"@ {
            "goat?"@
        } else if key == "witness"@ {
            "witness"@
        } else if key == "field_hint"@ {
            "Best buttons here: Plant coffee, Harvest fruit, Feed civets."@
        } else if key == "sanctuary_hint"@ {
            "Click a civet to feed, pet, inspect notes, and build affection."@
        } else if key == "roastery_hint"@ {
            "Best buttons here: Collect beans, Roast coffee, Sell coffee."@
        } else if key == "office_hint"@ {
            "Best buttons here: Show paperwork, build office upgrades, stay calm."@
        } else if key == "processed_beans"@ {
            "Processed beans"@
        } else if key == "roasted_bags"@ {
            "Roasted bags"@
        } else if key == "paperwork_level"@ {
            "Paperwork level"@
        } else if key == "sleepy"@ {
            "sleepy"@
        } else if key == "hungry"@ {
            "hungry"@
        } else if key == "curious"@ {
            "curious"@
        } else if key == "content"@ {
            "content"@
        } else {
            key
        }
    }
}

/// The label a world sprite shows for `key` in `language`.
pub fn world_label_in(language: Language, key: &'static str) -> (s: &'static str)
    ensures
        s@ == world_text(language, key@),
{
    if language == Language::Swedish {
        if same_text(key, "owner") {
            "plantageägare"
        } else if same_text(key, "fruit") {
            "frukt"
        } else if same_text(key, "seedlings") {
            "plantor"
        } else if same_text(key, "fruit_on_hand") {
            "Kaffefrukt i säcken"
        } else if same_text(key, "civet_garden") {
            "palmmårdsträdgård"
        } else if same_text(key, "binturong") {
            "binturong"
        } else if same_text(key, "snack_trays") {
            "snackbrickor"
        } else if same_text(key, "roaster") {
            "ROSTARE"
        } else if same_text(key, "coffee") {
            "kaffe"
        } else if same_text(key, "bean_crate") {
            "bönlåda"
        } else if same_text(key, "police_helicopter") {
            "polishelikopter"
        } else if same_text(key, "suspicion") {
            "Misstanke"
        } else if same_text(key, "field_goat") {
            "fältget?"
        } else if same_text(key, "goat") {
            "get?"
        } else if same_text(key, "witness") {
            "vittne"
        } else if same_text(key, "field_hint") {
            "Bästa knapparna här: Plantera kaffe, Skörda frukt, Mata palmmårdar."
        } else if same_text(key, "sanctuary_hint") {
            "Klicka på en palmmård för att mata, klappa, granska anteckningar och bygga tillgivenhet."
        } else if same_text(key, "roastery_hint") {
            "Bästa knapparna här: Samla bönor, Rosta kaffe, Sälj kaffe."
        } else if same_text(key, "office_hint") {
            "Bästa knapparna här: Visa papper, bygg kontorsuppgraderingar, håll dig lugn."
        } else if same_text(key, "processed_beans") {
            "Processade bönor"
        } else if same_text(key, "roasted_bags") {
            "Rostade säckar"
        } else if same_text(key, "paperwork_level") {
            "Pappersnivå"
        } else if same_text(key, "sleepy") {
            "sömnig"
        } else if same_text(key, "hungry") {
            "hungrig"
        } else if same_text(key, "curious") {
            "nyfiken"
        } else if same_text(key, "content") {
            "nöjd"
        } else {
            key
        }
    } else {
        if same_text(key, "owner") {
            "plantation owner"
        } else if same_text(key, "fruit") {
            "fruit"
        } else if same_text(key, "seedlings") {
            "seedlings"
        } else if same_text(key, "fruit_on_hand") {
            "Coffee fruit on hand"
        } else if same_text(key, "civet_garden") {
            "civet garden"
        } else if same_text(key, "binturong") {
            "binturong"
        } else if same_text(key, "snack_trays") {
            "snack trays"
        } else if same_text(key, "roaster") {
            "ROASTER"
        } else if same_text(key, "coffee") {
            "coffee"
        } else if same_text(key, "bean_crate") {
            "bean crate"
        } else if same_text(key, "police_helicopter") {
            "police helicopter"
        } else if same_text(key, "suspicion") {
            "Suspicion"
        } else if same_text(key, "field_goat") {
            "field goat?"
        } else if same_text(key, "goat") {
            "goat?"
        } else if same_text(key, "witness") {
            "witness"
        } else if same_text(key, "field_hint") {
            "Best buttons here: Plant coffee, Harvest fruit, Feed civets."
        } else if same_text(key, "sanctuary_hint") {
            "Click a civet to feed, pet, inspect notes, and build affection."
        } else if same_text(key, "roastery_hint") {
            "Best buttons here: Collect beans, Roast coffee, Sell coffee."
        } else if same_text(key, "office_hint") {
            "Best buttons here: Show paperwork, build office upgrades, stay calm."
        } else if same_text(key, "processed_beans") {
            "Processed beans"
        } else if same_text(key, "roasted_bags") {
            "Roasted bags"
        } else if same_text(key, "paperwork_level") {
            "Paperwork level"
        } else if same_text(key, "sleepy") {
            "sleepy"
        } else if same_text(key, "hungry") {
            "hungry"
        } else if same_text(key, "curious") {
            "curious"
        } else if same_text(key, "content") {
            "content"
        } else {
            key
        }
    }
}

} // verus!
