use vstd::prelude::*;

use crate::advisor::{default_tip, mood_tip};
use crate::temperature::Celsius;

verus! {

/// The labels whose advice never depends on the temperature.
pub open spec fn is_fixed_label(weather: Seq<char>) -> bool {
    ||| weather == "sunny"@
    ||| weather == "cloudy"@
    ||| weather == "cold"@
    ||| weather == "stormy"@
    ||| weather == "windy"@
    ||| weather == "foggy"@
    ||| weather == "humid"@
    ||| weather == "snowy"@
    ||| weather == "hail"@
    ||| weather == "thunderstorm"@
    ||| weather == "drizzle"@
    ||| weather == "clear"@
    ||| weather == "overcast"@
    ||| weather == "blizzard"@
    ||| weather == "sleet"@
}

/// The labels that some rule matches.
pub open spec fn is_known_label(weather: Seq<char>) -> bool {
    ||| weather == "rainy"@
    ||| weather == "hot"@
    ||| is_fixed_label(weather)
}

/// The length and first character of each label, which tell them apart.
proof fn lemma_label_shapes()
    ensures
        "rainy"@.len() == 5,
        "rainy"@[0] == 'r',
        "hot"@.len() == 3,
        "hot"@[0] == 'h',
        "sunny"@.len() == 5,
        "sunny"@[0] == 's',
        "cloudy"@.len() == 6,
        "cloudy"@[0] == 'c',
        "cold"@.len() == 4,
        "cold"@[0] == 'c',
        "stormy"@.len() == 6,
        "stormy"@[0] == 's',
        "windy"@.len() == 5,
        "windy"@[0] == 'w',
        "foggy"@.len() == 5,
        "foggy"@[0] == 'f',
        "humid"@.len() == 5,
        "humid"@[0] == 'h',
        "snowy"@.len() == 5,
        "snowy"@[0] == 's',
        "hail"@.len() == 4,
        "hail"@[0] == 'h',
        "thunderstorm"@.len() == 12,
        "thunderstorm"@[0] == 't',
        "drizzle"@.len() == 7,
        "drizzle"@[0] == 'd',
        "clear"@.len() == 5,
        "clear"@[0] == 'c',
        "overcast"@.len() == 8,
        "overcast"@[0] == 'o',
        "blizzard"@.len() == 8,
        "blizzard"@[0] == 'b',
        "sleet"@.len() == 5,
        "sleet"@[0] == 's',
{
    reveal_strlit("rainy");
    reveal_strlit("hot");
    reveal_strlit("sunny");
    reveal_strlit("cloudy");
    reveal_strlit("cold");
    reveal_strlit("stormy");
    reveal_strlit("windy");
    reveal_strlit("foggy");
    reveal_strlit("humid");
    reveal_strlit("snowy");
    reveal_strlit("hail");
    reveal_strlit("thunderstorm");
    reveal_strlit("drizzle");
    reveal_strlit("clear");
    reveal_strlit("overcast");
    reveal_strlit("blizzard");
    reveal_strlit("sleet");
}

/// For a label without a temperature guard, the advice is the same whatever
/// the reading is, and whether or not there is one.
pub proof fn lemma_fixed_label_ignores_temperature(
    weather: Seq<char>,
    first: Option<Celsius>,
    second: Option<Celsius>,
)
    requires
        is_fixed_label(weather),
    ensures
        mood_tip(weather, first) == mood_tip(weather, second),
        mood_tip(weather, first) == mood_tip(weather, None),
{
    lemma_label_shapes();
}

/// "sunny" always gets the walk, whatever the reading.
pub proof fn lemma_sunny_ignores_temperature(temp: Option<Celsius>)
    ensures
        mood_tip("sunny"@, temp) == "10-min walk to lift your mood."@,
{
    lemma_label_shapes();
}

/// A label that no rule matches gets the default advice, whatever the reading.
pub proof fn lemma_unknown_label_gets_default(weather: Seq<char>, temp: Option<Celsius>)
    requires
        !is_known_label(weather),
    ensures
        mood_tip(weather, temp) == default_tip(),
{
}

/// "unknown_tag" gets the default advice, whatever the reading.
pub proof fn lemma_unknown_tag_gets_default(temp: Option<Celsius>)
    ensures
        mood_tip("unknown_tag"@, temp) == default_tip(),
{
    lemma_label_shapes();
    reveal_strlit("unknown_tag");
    assert("unknown_tag"@.len() == 11);
}

/// The empty label gets the default advice, whatever the reading.
pub proof fn lemma_empty_label_gets_default(temp: Option<Celsius>)
    ensures
        mood_tip(""@, temp) == default_tip(),
{
    lemma_label_shapes();
    reveal_strlit("");
    assert(""@.len() == 0);
}

/// A label that differs from "rainy" only in case gets the default advice.
pub proof fn lemma_labels_are_case_sensitive(temp: Option<Celsius>)
    ensures
        mood_tip("Rainy"@, temp) == default_tip(),
{
    lemma_label_shapes();
    reveal_strlit("Rainy");
    assert("Rainy"@[0] == 'R');
}

/// The advice is a function of the arguments alone: two calls with the same
/// label and reading give the same text.
pub proof fn lemma_same_arguments_same_tip(
    weather: Seq<char>,
    temp: Option<Celsius>,
    first: Seq<char>,
    second: Seq<char>,
)
    requires
        first == mood_tip(weather, temp),
        second == mood_tip(weather, temp),
    ensures
        first == second,
{
}

} // verus!
