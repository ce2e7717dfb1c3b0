use prollyglot_runtime::echo::{matches_overlay_echo, normalize_overlay_text};

#[test]
fn overlay_echo_matching_ignores_spacing_and_punctuation() {
    let echoes = vec![normalize_overlay_text("Good morning, everyone!")];
    assert!(matches_overlay_echo("Good morning everyone", &echoes));
    assert!(matches_overlay_echo("Morning, everyone", &echoes));
}

#[test]
fn overlay_echo_matching_does_not_hide_short_source_words() {
    let echoes = vec![normalize_overlay_text("No")];
    assert!(!matches_overlay_echo("No", &echoes));
    assert!(!matches_overlay_echo("News update", &echoes));
}

#[test]
fn normalization_lowercases_letters_and_drops_the_rest() {
    assert_eq!(normalize_overlay_text("Good morning, everyone!"), "goodmorningeveryone");
    assert_eq!(normalize_overlay_text("ÄÖ 42 — ニュース!"), "äö42ニュース");
    assert_eq!(normalize_overlay_text("İ"), "i\u{307}");
    assert_eq!(normalize_overlay_text("... --- ..."), "");
}

#[test]
fn normalization_keeps_at_most_five_hundred_characters() {
    let long = "Ab".repeat(400);
    let normalized = normalize_overlay_text(&long);
    assert_eq!(normalized.chars().count(), 500);
    assert_eq!(normalized, "ab".repeat(250));
    let expanding = "İ".repeat(300);
    let normalized = normalize_overlay_text(&expanding);
    assert_eq!(normalized.chars().count(), 500);
    assert!(normalized.starts_with("i\u{307}i\u{307}"));
}

#[test]
fn short_candidates_need_an_exact_match() {
    let echoes = vec![normalize_overlay_text("Hello there")];
    assert!(!matches_overlay_echo("Hello", &echoes));
    let echoes = vec![normalize_overlay_text("Hello")];
    assert!(matches_overlay_echo("hello!", &echoes));
    assert!(matches_overlay_echo("Hello there", &echoes));
    assert!(!matches_overlay_echo("Help", &echoes));
    assert!(!matches_overlay_echo("Hello", &[]));
}
