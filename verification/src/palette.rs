//! Colours: the brand palette, and which colour stands for what.

use vstd::prelude::*;
use crate::text::{same, starts, starts_with};

verus! {

/// A colour on the screen: one of the brand palette, or one given by its parts.
#[derive(Clone, Copy, PartialEq, Eq, Structural, Debug)]
pub enum Color {
    Bg,
    /// Purple.
    Accent,
    Success,
    Error,
    Warning,
    Info,
    Text,
    Dim,
    Rgb(u8, u8, u8),
}

/// The red, green and blue parts of a colour.
pub open spec fn parts_of(c: Color) -> (u8, u8, u8) {
    match c {
        Color::Bg => (10, 10, 26),
        Color::Accent => (123, 104, 238),
        Color::Success => (74, 222, 128),
        Color::Error => (248, 113, 113),
        Color::Warning => (251, 191, 36),
        Color::Info => (0, 229, 255),
        Color::Text => (224, 224, 224),
        Color::Dim => (102, 102, 102),
        Color::Rgb(r, g, b) => (r, g, b),
    }
}

impl Color {
    /// The red, green and blue parts of the colour ([`parts_of`]).
    pub fn parts(self) -> (r: (u8, u8, u8))
        ensures
            r == parts_of(self),
    {
        match self {
            Color::Bg => (10, 10, 26),
            Color::Accent => (123, 104, 238),
            Color::Success => (74, 222, 128),
            Color::Error => (248, 113, 113),
            Color::Warning => (251, 191, 36),
            Color::Info => (0, 229, 255),
            Color::Text => (224, 224, 224),
            Color::Dim => (102, 102, 102),
            Color::Rgb(r, g, b) => (r, g, b),
        }
    }
}

/// The colour of a bus subject.
pub open spec fn subject_color(s: Seq<char>) -> Color {
    if starts(s, "QUEEN.phase."@) {
        Color::Dim
    } else if starts(s, "QUEEN."@) {
        Color::Rgb(180, 140, 255)
    } else if s == "KANNAKA.consciousness"@ {
        Color::Accent
    } else if s == "KANNAKA.memory.new"@ {
        Color::Success
    } else if s == "KANNAKA.substrate.phi"@ {
        Color::Info
    } else if s == "KANNAKA.dreams"@ {
        Color::Warning
    } else if starts(s, "KANNAKA."@) {
        Color::Accent
    } else if starts(s, "RADIO."@) {
        Color::Rgb(255, 100, 200)
    } else if starts(s, "KAX."@) {
        Color::Rgb(100, 200, 255)
    } else if starts(s, "EYE."@) {
        Color::Rgb(255, 200, 100)
    } else if s == "tui.error"@ {
        Color::Error
    } else {
        Color::Text
    }
}

/// The colour of a bus subject ([`subject_color`]).
pub fn bus_subject_color(subject: &str) -> (r: Color)
    ensures
        r == subject_color(subject@),
{
    if starts_with(subject, "QUEEN.phase.") {
        Color::Dim
    } else if starts_with(subject, "QUEEN.") {
        Color::Rgb(180, 140, 255)
    } else if same(subject, "KANNAKA.consciousness") {
        Color::Accent
    } else if same(subject, "KANNAKA.memory.new") {
        Color::Success
    } else if same(subject, "KANNAKA.substrate.phi") {
        Color::Info
    } else if same(subject, "KANNAKA.dreams") {
        Color::Warning
    } else if starts_with(subject, "KANNAKA.") {
        Color::Accent
    } else if starts_with(subject, "RADIO.") {
        Color::Rgb(255, 100, 200)
    } else if starts_with(subject, "KAX.") {
        Color::Rgb(100, 200, 255)
    } else if starts_with(subject, "EYE.") {
        Color::Rgb(255, 200, 100)
    } else if same(subject, "tui.error") {
        Color::Error
    } else {
        Color::Text
    }
}

/// What `str::to_lowercase` makes of a text.
pub uninterp spec fn lowercase_of(s: Seq<char>) -> Seq<char>;

/// The lower-case form of a text.
///
/// Trusted: `str::to_lowercase` maps the same text to the same text.
#[verifier::external_body]
fn lowercase(s: &str) -> (r: String)
    ensures
        r@ == lowercase_of(s@),
{
    s.to_lowercase()
}

/// The colour of a consciousness level that is written in lower case.
pub open spec fn lowered_level_color(level: Seq<char>) -> Color {
    if level == "resonant"@ || level == "transcendent"@ || level == "awakened"@ {
        Color::Success
    } else if level == "coherent"@ || level == "synchronized"@ {
        Color::Info
    } else if level == "emerging"@ || level == "developing"@ {
        Color::Warning
    } else {
        Color::Dim
    }
}

/// The colour of a consciousness level that is written in lower case
/// ([`lowered_level_color`]).
pub fn level_color_lowered(level: &str) -> (r: Color)
    ensures
        r == lowered_level_color(level@),
{
    if same(level, "resonant") || same(level, "transcendent") || same(level, "awakened") {
        Color::Success
    } else if same(level, "coherent") || same(level, "synchronized") {
        Color::Info
    } else if same(level, "emerging") || same(level, "developing") {
        Color::Warning
    } else {
        Color::Dim
    }
}

/// The colour of a consciousness level, in whatever case it is written.
pub fn level_color(level: &str) -> (r: Color)
    ensures
        r == lowered_level_color(lowercase_of(level@)),
{
    level_color_lowered(lowercase(level).as_str())
}

/// The colour of an agent: by its handedness; for one that is neither left, right
/// nor chiral the given colour, which stands for its phi.
pub open spec fn handed_color(handedness: Seq<char>, by_phi: Color) -> Color {
    if handedness == "left"@ {
        Color::Rgb(255, 120, 120)
    } else if handedness == "right"@ {
        Color::Rgb(120, 200, 255)
    } else if handedness == "chiral"@ {
        Color::Rgb(255, 180, 100)
    } else {
        by_phi
    }
}

/// The colour of an agent ([`handed_color`]).
pub fn agent_color(handedness: &str, by_phi: Color) -> (r: Color)
    ensures
        r == handed_color(handedness@, by_phi),
{
    if same(handedness, "left") {
        Color::Rgb(255, 120, 120)
    } else if same(handedness, "right") {
        Color::Rgb(120, 200, 255)
    } else if same(handedness, "chiral") {
        Color::Rgb(255, 180, 100)
    } else {
        by_phi
    }
}

/// The colour of a permission mode.
pub open spec fn mode_color_of(mode: Seq<char>) -> Color {
    if mode == "yolo"@ {
        Color::Error
    } else if mode == "plan"@ {
        Color::Info
    } else if mode == "auto-edit"@ {
        Color::Warning
    } else {
        Color::Success
    }
}

/// The colour of a permission mode ([`mode_color_of`]).
pub fn mode_color(mode: &str) -> (r: Color)
    ensures
        r == mode_color_of(mode@),
{
    if same(mode, "yolo") {
        Color::Error
    } else if same(mode, "plan") {
        Color::Info
    } else if same(mode, "auto-edit") {
        Color::Warning
    } else {
        Color::Success
    }
}

} // verus!
