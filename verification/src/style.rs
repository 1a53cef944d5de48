//! How a runner's status decides the look of its row.

use vstd::prelude::*;
use crate::text::same_text;

verus! {

/// What a recognized status says about a runner.
#[derive(Clone, Copy, Debug, PartialEq, Eq, Structural)]
pub enum StyleTag {
    /// The runner is active: emphasized.
    Positive,
    /// The runner is online: the table's default look.
    Neutral,
    /// The runner is offline: an alert.
    Negative,
    /// The runner is paused: a warning.
    Warning,
}

/// A status outside the known set, with the text that was found.
#[derive(Clone, Debug, PartialEq, Eq)]
pub struct UnrecognizedStatus {
    pub status: String,
}

/// A terminal color, as far as the table uses them.
#[derive(Clone, Copy, Debug, PartialEq, Eq, Structural)]
pub enum Color {
    Black,
    White,
    DarkGray,
    Green,
    Red,
    Rgb(u8, u8, u8),
}

/// The look of a piece of the table: a foreground and a background color,
/// each left to the surroundings when absent, and whether the text is bold.
#[derive(Clone, Copy, Debug, PartialEq, Eq, Structural)]
pub struct Style {
    pub fg: Option<Color>,
    pub bg: Option<Color>,
    pub bold: bool,
}

/// The tag of a status: `active` is positive, `online` neutral, `offline`
/// negative and `paused` a warning. No other status has a tag.
pub open spec fn style_of(status: Seq<char>) -> Option<StyleTag> {
    if status == "active"@ {
        Some(StyleTag::Positive)
    } else if status == "online"@ {
        Some(StyleTag::Neutral)
    } else if status == "offline"@ {
        Some(StyleTag::Negative)
    } else if status == "paused"@ {
        Some(StyleTag::Warning)
    } else {
        None
    }
}

/// The style without any color or emphasis of its own.
pub open spec fn plain_style() -> Style {
    Style { fg: None, bg: None, bold: false }
}

/// The style that a tag gives a row: green for positive, red for negative,
/// amber for a warning, and nothing of its own for neutral.
pub open spec fn style_of_tag(tag: StyleTag) -> Style {
    match tag {
        StyleTag::Positive => Style { fg: Some(Color::Green), bg: None, bold: false },
        StyleTag::Neutral => plain_style(),
        StyleTag::Negative => Style { fg: Some(Color::Red), bg: None, bold: false },
        StyleTag::Warning => Style { fg: Some(Color::Rgb(255, 175, 0)), bg: None, bold: false },
    }
}

/// The style of a row whose runner has the given status: that of the
/// status's tag, and the plain style where the status is not recognized.
pub open spec fn row_style(status: Seq<char>) -> Style {
    match style_of(status) {
        Some(tag) => style_of_tag(tag),
        None => plain_style(),
    }
}

impl Style {
    /// The style without any color or emphasis of its own.
    pub fn plain() -> (style: Style)
        ensures
            style == plain_style(),
    {
        Style { fg: None, bg: None, bold: false }
    }
}

impl StyleTag {
    /// The style that this tag gives a row.
    pub fn style(self) -> (style: Style)
        ensures
            style == style_of_tag(self),
    {
        match self {
            StyleTag::Positive => Style { fg: Some(Color::Green), bg: None, bold: false },
            StyleTag::Neutral => Style::plain(),
            StyleTag::Negative => Style { fg: Some(Color::Red), bg: None, bold: false },
            StyleTag::Warning => Style { fg: Some(Color::Rgb(255, 175, 0)), bg: None, bold: false },
        }
    }
}

/// Maps a status to its tag. A status outside the known four is reported as
/// unrecognized, together with its text, and never mapped to a default.
pub fn style_for(status: &str) -> (result: Result<StyleTag, UnrecognizedStatus>)
    ensures
        match result {
            Ok(tag) => style_of(status@) == Some(tag),
            Err(unrecognized) => style_of(status@) is None && unrecognized.status@ == status@,
        },
{
    if same_text(status, "active") {
        Ok(StyleTag::Positive)
    } else if same_text(status, "online") {
        Ok(StyleTag::Neutral)
    } else if same_text(status, "offline") {
        Ok(StyleTag::Negative)
    } else if same_text(status, "paused") {
        Ok(StyleTag::Warning)
    } else {
        Err(UnrecognizedStatus { status: status.to_owned() })
    }
}

} // verus!
