use pwr_ext::suggest::did_you_mean;
use pwr_ext::suggest::edit_distance;

#[test]
fn did_you_mean_suggests_close_match() {
    assert_eq!(
        did_you_mean("contnet", &["content", "tts"]),
        Some("content")
    );
    assert_eq!(did_you_mean("colur", &["colour", "color"]), Some("colour"));
    assert_eq!(did_you_mean("zzzzz", &["content"]), None);
}

#[test]
fn did_you_mean_short_string_threshold() {
    // For short candidates (<=4), threshold is 1
    assert_eq!(did_you_mean("ts", &["tts"]), Some("tts"));
    assert_eq!(did_you_mean("tx", &["tts"]), None); // distance 2 > threshold 1
}

#[test]
fn edit_distance_classic_pairs() {
    assert_eq!(edit_distance("kitten", "sitting"), 3);
    assert_eq!(edit_distance("flaw", "lawn"), 2);
    assert_eq!(edit_distance("", "abc"), 3);
    assert_eq!(edit_distance("abc", ""), 3);
    assert_eq!(edit_distance("", ""), 0);
}

#[test]
fn edit_distance_is_zero_exactly_on_equal_strings() {
    assert_eq!(edit_distance("components_v2", "components_v2"), 0);
    assert_eq!(edit_distance("colour", "color"), 1);
    assert!(edit_distance("a", "b") > 0);
}

#[test]
fn edit_distance_counts_characters_not_bytes() {
    assert_eq!(edit_distance("é", "e"), 1);
    assert_eq!(edit_distance("日本", "日本語"), 1);
}

#[test]
fn did_you_mean_returns_an_exact_match() {
    assert_eq!(did_you_mean("title", &["url", "title", "titles"]), Some("title"));
}

#[test]
fn did_you_mean_prefers_the_nearest_then_the_first() {
    // "colr" is 1 from "color" and 2 from "colour": the nearer wins.
    assert_eq!(did_you_mean("colr", &["colour", "color"]), Some("color"));
    // Two candidates at the same distance: the first one wins.
    assert_eq!(did_you_mean("ab", &["abc", "abd"]), Some("abc"));
    assert_eq!(did_you_mean("anything", &[]), None);
}

#[test]
fn did_you_mean_threshold_counts_bytes_of_the_candidate() {
    // "ümlt" is 5 bytes long, so two edits are still offered.
    assert_eq!(did_you_mean("umlx", &["ümlt"]), Some("ümlt"));
    // "mlt" is 3 bytes long: one edit at most.
    assert_eq!(did_you_mean("mxx", &["mlt"]), None);
}

#[test]
fn appended_candidates_keep_or_improve_the_suggestion() {
    let cs = ["colour", "title"];
    assert_eq!(did_you_mean("colr", &cs), Some("colour"));
    // A farther or equally near appended candidate keeps the suggestion.
    assert_eq!(did_you_mean("colr", &["colour", "title", "cooler"]), Some("colour"));
    // A strictly nearer appended candidate replaces it.
    assert_eq!(did_you_mean("colr", &["colour", "title", "color"]), Some("color"));
    // With nothing close before, the appended candidates decide alone.
    assert_eq!(did_you_mean("colr", &["zzzzz"]), None);
    assert_eq!(
        did_you_mean("colr", &["zzzzz", "cola", "color"]),
        did_you_mean("colr", &["cola", "color"])
    );
}
