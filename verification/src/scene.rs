//! The static scene the host presents: a centered panel holding three
//! text labels, described as plain data with an exact contract. The scene
//! is built once at startup and never mutated.

use vstd::prelude::*;

verus! {

/// The logical window width, in pixels.
pub const WINDOW_WIDTH: u32 = 1280;

/// The logical window height, in pixels.
pub const WINDOW_HEIGHT: u32 = 720;

/// The font size of the title label, in pixels.
pub const TITLE_FONT_SIZE: u32 = 8;

/// The font size of every other label, in pixels.
pub const FONT_SIZE: u32 = 6;

/// The colors the scene uses, named; the host maps each to its palette.
#[derive(Clone, Copy, PartialEq, Eq, Structural, Debug)]
pub enum UiColor {
    Black,
    Blue,
    Red,
    White,
}

/// One run of text with a single style: its content, font size and color.
#[derive(Clone, PartialEq, Eq, Debug)]
pub struct TextSpan {
    pub text: String,
    pub font_size: u32,
    pub color: UiColor,
}

/// One text label of the panel: its styled spans, and where it sits —
/// either pinned at an offset from the panel top, given in percent of the
/// panel height, or flowing with the panel's layout.
#[derive(Clone, PartialEq, Eq, Debug)]
pub struct Label {
    pub spans: Vec<TextSpan>,
    pub top_percent: Option<u32>,
}

/// The whole scene: a centered panel, sized in percent of the window and
/// filled with a background color, holding the text labels.
#[derive(Clone, PartialEq, Eq, Debug)]
pub struct Scene {
    pub panel_width_percent: u32,
    pub panel_height_percent: u32,
    pub background: UiColor,
    pub labels: Vec<Label>,
}

/// What the one scene of this demo holds: a black panel covering 90% of
/// the window in each direction, with a blue title pinned 30% down, a red
/// two-span password line pinned 35% down, and a white loading line
/// flowing at the panel's layout position.
pub open spec fn spec_scene_ok(s: Scene) -> bool {
    &&& s.panel_width_percent == 90
    &&& s.panel_height_percent == 90
    &&& s.background == UiColor::Black
    &&& s.labels@.len() == 3
    &&& s.labels@[0].spans@.len() == 1
    &&& s.labels@[0].spans@[0].text@ == "TITLE TEXT"@
    &&& s.labels@[0].spans@[0].font_size == TITLE_FONT_SIZE
    &&& s.labels@[0].spans@[0].color == UiColor::Blue
    &&& s.labels@[0].top_percent == Some(30u32)
    &&& s.labels@[1].spans@.len() == 2
    &&& s.labels@[1].spans@[0].text@ == "Password: "@
    &&& s.labels@[1].spans@[0].font_size == FONT_SIZE
    &&& s.labels@[1].spans@[0].color == UiColor::Red
    &&& s.labels@[1].spans@[1].text@ == "PASSWORD"@
    &&& s.labels@[1].spans@[1].font_size == FONT_SIZE
    &&& s.labels@[1].spans@[1].color == UiColor::Red
    &&& s.labels@[1].top_percent == Some(35u32)
    &&& s.labels@[2].spans@.len() == 1
    &&& s.labels@[2].spans@[0].text@ == "LOADING"@
    &&& s.labels@[2].spans@[0].font_size == FONT_SIZE
    &&& s.labels@[2].spans@[0].color == UiColor::White
    &&& s.labels@[2].top_percent is None
}

/// Builds the scene the host presents at startup.
pub fn build_scene() -> (s: Scene)
    ensures
        spec_scene_ok(s),
{
    let title = Label {
        spans: vec![
            TextSpan {
                text: "TITLE TEXT".to_owned(),
                font_size: TITLE_FONT_SIZE,
                color: UiColor::Blue,
            },
        ],
        top_percent: Some(30),
    };
    let password = Label {
        spans: vec![
            TextSpan { text: "Password: ".to_owned(), font_size: FONT_SIZE, color: UiColor::Red },
            TextSpan { text: "PASSWORD".to_owned(), font_size: FONT_SIZE, color: UiColor::Red },
        ],
        top_percent: Some(35),
    };
    let loading = Label {
        spans: vec![
            TextSpan { text: "LOADING".to_owned(), font_size: FONT_SIZE, color: UiColor::White },
        ],
        top_percent: None,
    };
    Scene {
        panel_width_percent: 90,
        panel_height_percent: 90,
        background: UiColor::Black,
        labels: vec![title, password, loading],
    }
}

/// The path of the one font asset the scene's labels use.
pub fn font_path() -> (r: String)
    ensures
        r@ == "fonts/Px437_IBM_CGA.ttf"@,
{
    "fonts/Px437_IBM_CGA.ttf".to_owned()
}

} // verus!
