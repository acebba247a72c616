use vstd::prelude::*;

use crate::temperature::{float_lt, Celsius};
use crate::text::same_text;

verus! {

/// Bit pattern of 15.0 in single precision: rain below it calls for warmth.
pub const CHILLY_RAIN_BITS: u32 = 0x4170_0000;

/// Bit pattern of 30.0 in single precision: heat above it calls for shade.
pub const SCORCHING_BITS: u32 = 0x41f0_0000;

/// A reading is present and strictly below 15 degrees.
pub open spec fn chilly(temp: Option<Celsius>) -> bool {
    match temp {
        Some(t) => float_lt(t.bits, CHILLY_RAIN_BITS),
        None => false,
    }
}

/// A reading is present and strictly above 30 degrees.
pub open spec fn scorching(temp: Option<Celsius>) -> bool {
    match temp {
        Some(t) => float_lt(SCORCHING_BITS, t.bits),
        None => false,
    }
}

/// The advice given when no rule matches the label.
pub open spec fn default_tip() -> Seq<char> {
    "Check in with yourself and do something comforting."@
}

/// The advice for a label and an optional reading: the first rule that
/// matches wins, labels compare exactly and case-sensitively, and only
/// "rainy" and "hot" look at the temperature.
pub open spec fn mood_tip(weather: Seq<char>, temp: Option<Celsius>) -> Seq<char> {
    if weather == "rainy"@ {
        if chilly(temp) {
            "Try indoor breathing + a warm drink."@
        } else {
            "Listen to calming music indoors."@
        }
    } else if weather == "sunny"@ {
        "10-min walk to lift your mood."@
    } else if weather == "cloudy"@ {
        "Read a favorite book or call a friend."@
    } else if weather == "cold"@ {
        "Stretch gently for 5 minutes."@
    } else if weather == "hot"@ {
        if scorching(temp) {
            "Drink water and rest in shade."@
        } else {
            "Wear light clothes and stay hydrated."@
        }
    } else if weather == "stormy"@ {
        "Practice deep breathing and stay safe indoors."@
    } else if weather == "windy"@ {
        "Enjoy indoor hobbies or games."@
    } else if weather == "foggy"@ {
        "Mindful meditation for clarity."@
    } else if weather == "humid"@ {
        "Take cool showers and drink fluids."@
    } else if weather == "snowy"@ {
        "Warm up with gentle yoga indoors."@
    } else if weather == "hail"@ {
        "Stay inside and listen to relaxing sounds."@
    } else if weather == "thunderstorm"@ {
        "Stay safe, read or journal."@
    } else if weather == "drizzle"@ {
        "Light stretching at home."@
    } else if weather == "clear"@ {
        "Step outside for a fresh air break."@
    } else if weather == "overcast"@ {
        "Try a creative activity indoors."@
    } else if weather == "blizzard"@ {
        "Bundle up and watch a comforting movie."@
    } else if weather == "sleet"@ {
        "Enjoy a hot beverage and relax."@
    } else {
        default_tip()
    }
}

/// Every piece of advice is non-empty text.
pub proof fn lemma_tip_is_never_empty(weather: Seq<char>, temp: Option<Celsius>)
    ensures
        mood_tip(weather, temp).len() > 0,
{
    reveal_strlit("Check in with yourself and do something comforting.");
    reveal_strlit("Try indoor breathing + a warm drink.");
    reveal_strlit("Listen to calming music indoors.");
    reveal_strlit("10-min walk to lift your mood.");
    reveal_strlit("Read a favorite book or call a friend.");
    reveal_strlit("Stretch gently for 5 minutes.");
    reveal_strlit("Drink water and rest in shade.");
    reveal_strlit("Wear light clothes and stay hydrated.");
    reveal_strlit("Practice deep breathing and stay safe indoors.");
    reveal_strlit("Enjoy indoor hobbies or games.");
    reveal_strlit("Mindful meditation for clarity.");
    reveal_strlit("Take cool showers and drink fluids.");
    reveal_strlit("Warm up with gentle yoga indoors.");
    reveal_strlit("Stay inside and listen to relaxing sounds.");
    reveal_strlit("Stay safe, read or journal.");
    reveal_strlit("Light stretching at home.");
    reveal_strlit("Step outside for a fresh air break.");
    reveal_strlit("Try a creative activity indoors.");
    reveal_strlit("Bundle up and watch a comforting movie.");
    reveal_strlit("Enjoy a hot beverage and relax.");
}

/// Whether `temp` is present and strictly below 15 degrees.
fn is_chilly(temp: Option<Celsius>) -> (r: bool)
    ensures
        r == chilly(temp),
{
    match temp {
        Some(t) => t.lt(&Celsius::from_bits(CHILLY_RAIN_BITS)),
        None => false,
    }
}

/// Whether `temp` is present and strictly above 30 degrees.
fn is_scorching(temp: Option<Celsius>) -> (r: bool)
    ensures
        r == scorching(temp),
{
    match temp {
        Some(t) => Celsius::from_bits(SCORCHING_BITS).lt(&t),
        None => false,
    }
}

/// A wellness suggestion for the weather label `weather` and the optional
/// reading `temp_c`. Never fails: an unknown label gets the default advice.
pub fn get_mood_tip(weather: &str, temp_c: Option<Celsius>) -> (r: &'static str)
    ensures
        r@ == mood_tip(weather@, temp_c),
        r@.len() > 0,
{
    proof {
        lemma_tip_is_never_empty(weather@, temp_c);
    }
    if same_text(weather, "rainy") {
        if is_chilly(temp_c) {
            "Try indoor breathing + a warm drink."
        } else {
            "Listen to calming music indoors."
        }
    } else if same_text(weather, "sunny") {
        "10-min walk to lift your mood."
    } else if same_text(weather, "cloudy") {
        "Read a favorite book or call a friend."
    } else if same_text(weather, "cold") {
        "Stretch gently for 5 minutes."
    } else if same_text(weather, "hot") {
        if is_scorching(temp_c) {
            "Drink water and rest in shade."
        } else {
            "Wear light clothes and stay hydrated."
        }
    } else if same_text(weather, "stormy") {
        "Practice deep breathing and stay safe indoors."
    } else if same_text(weather, "windy") {
        "Enjoy indoor hobbies or games."
    } else if same_text(weather, "foggy") {
        "Mindful meditation for clarity."
    } else if same_text(weather, "humid") {
        "Take cool showers and drink fluids."
    } else if same_text(weather, "snowy") {
        "Warm up with gentle yoga indoors."
    } else if same_text(weather, "hail") {
        "Stay inside and listen to relaxing sounds."
    } else if same_text(weather, "thunderstorm") {
        "Stay safe, read or journal."
    } else if same_text(weather, "drizzle") {
        "Light stretching at home."
    } else if same_text(weather, "clear") {
        "Step outside for a fresh air break."
    } else if same_text(weather, "overcast") {
        "Try a creative activity indoors."
    } else if same_text(weather, "blizzard") {
        "Bundle up and watch a comforting movie."
    } else if same_text(weather, "sleet") {
        "Enjoy a hot beverage and relax."
    } else {
        "Check in with yourself and do something comforting."
    }
}

} // verus!
