use genremap::text::{clean_texts, extract_artist_name_from_title, make_slug, strip_arrow_suffix, trim_text};

#[test]
fn slug_removes_spaces_and_punctuation() {
    assert_eq!(make_slug("Hip Hop!"), "HipHop");
}

#[test]
fn slug_keeps_letters_digits_and_case() {
    assert_eq!(make_slug("Drum'n'Bass 2000"), "DrumnBass2000");
    assert_eq!(make_slug("pop"), "pop");
}

#[test]
fn slug_of_only_punctuation_is_empty() {
    assert_eq!(make_slug("!?- —"), "");
    assert_eq!(make_slug(""), "");
}

#[test]
fn slug_drops_non_ascii_letters() {
    assert_eq!(make_slug("fútbol"), "ftbol");
}

#[test]
fn trim_removes_surrounding_whitespace() {
    assert_eq!(trim_text("  pop \t\n"), "pop");
    assert_eq!(trim_text("rock"), "rock");
    assert_eq!(trim_text(" \u{a0} "), "");
}

#[test]
fn strip_arrow_removes_one_trailing_marker() {
    assert_eq!(strip_arrow_suffix("Pop »"), "Pop");
    assert_eq!(strip_arrow_suffix("Pop"), "Pop");
    assert_eq!(strip_arrow_suffix("»"), "»");
}

#[test]
fn clean_texts_trims_drops_blanks_strips_marker() {
    let raw = vec![
        "  Pop »".to_string(),
        "   ".to_string(),
        "Jazz".to_string(),
        "".to_string(),
        "\tRock »  ".to_string(),
    ];
    let cleaned = clean_texts(&raw);
    assert_eq!(cleaned, vec!["Pop".to_string(), "Jazz".to_string(), "Rock".to_string()]);
}

#[test]
fn artist_name_between_marker_and_quote() {
    assert_eq!(extract_artist_name_from_title("play e.g. Daft Punk\" now"), "Daft Punk");
    assert_eq!(
        extract_artist_name_from_title("e.g. Daft Punk \"One More Time\""),
        "Daft Punk"
    );
}

#[test]
fn artist_name_uses_last_marker() {
    assert_eq!(
        extract_artist_name_from_title("e.g. X \"a\" and e.g. Boards of Canada \"Roygbiv\""),
        "Boards of Canada"
    );
}

#[test]
fn artist_name_without_marker_is_empty() {
    assert_eq!(extract_artist_name_from_title("just a title"), "");
    assert_eq!(extract_artist_name_from_title(""), "");
}

#[test]
fn artist_name_without_quote_after_marker_is_empty() {
    assert_eq!(extract_artist_name_from_title("listen e.g. to something"), "");
}
