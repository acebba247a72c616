use weather_to_mood::advisor::get_mood_tip;
use weather_to_mood::temperature::Celsius;

const DEFAULT_TIP: &str = "Check in with yourself and do something comforting.";

fn reading(t: f32) -> Option<Celsius> {
    Some(Celsius::from_bits(t.to_bits()))
}

fn extremes() -> Vec<Option<Celsius>> {
    vec![
        None,
        reading(-273.15),
        reading(-40.0),
        reading(-0.0),
        reading(0.0),
        reading(14.999),
        reading(15.0),
        reading(30.0),
        reading(30.001),
        reading(1.0e30),
        reading(f32::MAX),
        reading(f32::MIN),
        reading(f32::INFINITY),
        reading(f32::NEG_INFINITY),
        reading(f32::NAN),
    ]
}

#[test]
fn rainy_below_fifteen_is_warm_drink() {
    assert_eq!(get_mood_tip("rainy", reading(10.0)), "Try indoor breathing + a warm drink.");
}

#[test]
fn rainy_at_fifteen_is_calming_music() {
    assert_eq!(get_mood_tip("rainy", reading(15.0)), "Listen to calming music indoors.");
}

#[test]
fn rainy_without_reading_is_calming_music() {
    assert_eq!(get_mood_tip("rainy", None), "Listen to calming music indoors.");
}

#[test]
fn rainy_guard_edges() {
    assert_eq!(get_mood_tip("rainy", reading(14.999)), "Try indoor breathing + a warm drink.");
    assert_eq!(get_mood_tip("rainy", reading(-0.0)), "Try indoor breathing + a warm drink.");
    assert_eq!(get_mood_tip("rainy", reading(f32::NEG_INFINITY)), "Try indoor breathing + a warm drink.");
    assert_eq!(get_mood_tip("rainy", reading(15.001)), "Listen to calming music indoors.");
    assert_eq!(get_mood_tip("rainy", reading(f32::INFINITY)), "Listen to calming music indoors.");
    assert_eq!(get_mood_tip("rainy", reading(f32::NAN)), "Listen to calming music indoors.");
    assert_eq!(get_mood_tip("rainy", reading(-f32::NAN)), "Listen to calming music indoors.");
}

#[test]
fn hot_above_thirty_is_shade() {
    assert_eq!(get_mood_tip("hot", reading(35.0)), "Drink water and rest in shade.");
}

#[test]
fn hot_at_thirty_is_light_clothes() {
    assert_eq!(get_mood_tip("hot", reading(30.0)), "Wear light clothes and stay hydrated.");
}

#[test]
fn hot_without_reading_is_light_clothes() {
    assert_eq!(get_mood_tip("hot", None), "Wear light clothes and stay hydrated.");
}

#[test]
fn hot_guard_edges() {
    assert_eq!(get_mood_tip("hot", reading(30.001)), "Drink water and rest in shade.");
    assert_eq!(get_mood_tip("hot", reading(f32::INFINITY)), "Drink water and rest in shade.");
    assert_eq!(get_mood_tip("hot", reading(29.999)), "Wear light clothes and stay hydrated.");
    assert_eq!(get_mood_tip("hot", reading(-50.0)), "Wear light clothes and stay hydrated.");
    assert_eq!(get_mood_tip("hot", reading(f32::NAN)), "Wear light clothes and stay hydrated.");
}

#[test]
fn sunny_ignores_temperature() {
    for t in extremes() {
        assert_eq!(get_mood_tip("sunny", t), "10-min walk to lift your mood.");
    }
}

#[test]
fn unknown_tag_gets_default() {
    for t in extremes() {
        assert_eq!(get_mood_tip("unknown_tag", t), DEFAULT_TIP);
    }
}

#[test]
fn empty_label_gets_default() {
    assert_eq!(get_mood_tip("", None), DEFAULT_TIP);
    assert_eq!(get_mood_tip("", reading(10.0)), DEFAULT_TIP);
}

#[test]
fn labels_are_case_sensitive() {
    assert_eq!(get_mood_tip("Rainy", reading(10.0)), DEFAULT_TIP);
    assert_eq!(get_mood_tip("HOT", reading(35.0)), DEFAULT_TIP);
    assert_eq!(get_mood_tip(" sunny", None), DEFAULT_TIP);
    assert_eq!(get_mood_tip("sunny ", None), DEFAULT_TIP);
    assert_eq!(get_mood_tip("rain", None), DEFAULT_TIP);
    assert_eq!(get_mood_tip("rainyy", None), DEFAULT_TIP);
    assert_eq!(get_mood_tip("sünny", None), DEFAULT_TIP);
}

#[test]
fn fixed_labels_ignore_temperature() {
    let table = [
        ("sunny", "10-min walk to lift your mood."),
        ("cloudy", "Read a favorite book or call a friend."),
        ("cold", "Stretch gently for 5 minutes."),
        ("stormy", "Practice deep breathing and stay safe indoors."),
        ("windy", "Enjoy indoor hobbies or games."),
        ("foggy", "Mindful meditation for clarity."),
        ("humid", "Take cool showers and drink fluids."),
        ("snowy", "Warm up with gentle yoga indoors."),
        ("hail", "Stay inside and listen to relaxing sounds."),
        ("thunderstorm", "Stay safe, read or journal."),
        ("drizzle", "Light stretching at home."),
        ("clear", "Step outside for a fresh air break."),
        ("overcast", "Try a creative activity indoors."),
        ("blizzard", "Bundle up and watch a comforting movie."),
        ("sleet", "Enjoy a hot beverage and relax."),
    ];
    for (label, tip) in table {
        for t in extremes() {
            assert_eq!(get_mood_tip(label, t), tip);
        }
    }
}

#[test]
fn same_arguments_same_tip() {
    for label in ["rainy", "hot", "sunny", "sleet", "unknown_tag", ""] {
        for t in extremes() {
            assert_eq!(get_mood_tip(label, t), get_mood_tip(label, t));
        }
    }
}
