use isola::style::{style_for, Color, Style, StyleTag, UnrecognizedStatus};

#[test]
fn active_is_positive() {
    assert_eq!(style_for("active"), Ok(StyleTag::Positive));
}

#[test]
fn online_is_neutral() {
    assert_eq!(style_for("online"), Ok(StyleTag::Neutral));
}

#[test]
fn offline_is_negative() {
    assert_eq!(style_for("offline"), Ok(StyleTag::Negative));
}

#[test]
fn paused_is_a_warning() {
    assert_eq!(style_for("paused"), Ok(StyleTag::Warning));
}

#[test]
fn recognized_statuses_have_distinct_tags() {
    let tags = [
        style_for("active").unwrap(),
        style_for("online").unwrap(),
        style_for("offline").unwrap(),
        style_for("paused").unwrap(),
    ];
    let mut i: usize = 0;
    while i < tags.len() {
        let mut j: usize = i + 1;
        while j < tags.len() {
            assert_ne!(tags[i], tags[j]);
            j += 1;
        }
        i += 1;
    }
}

#[test]
fn bogus_is_unrecognized_with_its_text() {
    assert_eq!(
        style_for("bogus"),
        Err(UnrecognizedStatus { status: String::from("bogus") })
    );
}

#[test]
fn status_is_matched_exactly() {
    assert!(style_for("Active").is_err());
    assert!(style_for("active ").is_err());
    assert!(style_for("").is_err());
}

#[test]
fn tags_map_to_their_colors() {
    assert_eq!(
        StyleTag::Positive.style(),
        Style { fg: Some(Color::Green), bg: None, bold: false }
    );
    assert_eq!(StyleTag::Neutral.style(), Style { fg: None, bg: None, bold: false });
    assert_eq!(
        StyleTag::Negative.style(),
        Style { fg: Some(Color::Red), bg: None, bold: false }
    );
    assert_eq!(
        StyleTag::Warning.style(),
        Style { fg: Some(Color::Rgb(255, 175, 0)), bg: None, bold: false }
    );
}

#[test]
fn plain_style_has_nothing_of_its_own() {
    assert_eq!(Style::plain(), Style { fg: None, bg: None, bold: false });
}
