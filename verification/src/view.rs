//! What the screen shows, apart from drawing it: the height of the input
//! area, the hints of the footer and titles, and where the cursor goes.

use vstd::prelude::*;
use vstd::string::*;
use vstd::view::View as _;
use crate::app_event::AppMode;

verus! {

/// Lays out the screen.
pub struct View;

/// The footer's hint for a mode, as pieces of text; the flag marks the key
/// names, which are shown in bold.
pub open spec fn footer_hint(mode: AppMode) -> Seq<(Seq<char>, bool)> {
    let mode_part = match mode {
        AppMode::Normal => seq![
            ("Press "@, false),
            ("[I]"@, true),
            (" to enter a URL to download a file. Press "@, false),
            ("[T]"@, true),
            (" to navigate."@, false),
        ],
        AppMode::Insert => seq![("Press "@, false), ("[Esc]"@, true), (" to return back."@, false)],
        AppMode::Table => seq![
            ("Press "@, false),
            ("[Esc]"@, true),
            (" to return back. "@, false),
            ("[\u{2191}]"@, true),
            (" to move up."@, false),
            ("[\u{2193}]"@, true),
            (" to move down."@, false),
        ],
    };
    mode_part + seq![(" Press "@, false), ("[Ctrl+C]"@, true), (" to exit."@, false)]
}

/// The title under the table for a mode.
pub open spec fn mode_title(mode: AppMode) -> Seq<char> {
    match mode {
        AppMode::Normal => " Normal Mode "@,
        AppMode::Insert => " Enter file download link. "@,
        AppMode::Table => " Table Mode "@,
    }
}

/// The piece values of a footer.
pub open spec fn pieces_view(v: Seq<(String, bool)>) -> Seq<(Seq<char>, bool)> {
    v.map_values(|p: (String, bool)| (p.0@, p.1))
}

fn piece(v: &mut Vec<(String, bool)>, text: &str, bold: bool)
    ensures
        pieces_view(final(v)@) == pieces_view(old(v)@).push((text@, bold)),
{
    v.push((String::from_str(text), bold));
    proof {
        assert(pieces_view(v@) =~= pieces_view(old(v)@).push((text@, bold)));
    }
}

impl View {
    /// The height of the area under the table: three lines while typing a
    /// URL, one otherwise.
    pub fn input_height(mode: AppMode) -> (h: u16)
        ensures
            h == (if mode == AppMode::Insert {
                3u16
            } else {
                1u16
            }),
    {
        if mode == AppMode::Insert {
            3
        } else {
            1
        }
    }

    /// The footer's hint for a mode.
    pub fn footer_hint(mode: AppMode) -> (pieces: Vec<(String, bool)>)
        ensures
            pieces_view(pieces@) == footer_hint(mode),
    {
        let mut v: Vec<(String, bool)> = Vec::new();
        match mode {
            AppMode::Normal => {
                piece(&mut v, "Press ", false);
                piece(&mut v, "[I]", true);
                piece(&mut v, " to enter a URL to download a file. Press ", false);
                piece(&mut v, "[T]", true);
                piece(&mut v, " to navigate.", false);
            },
            AppMode::Insert => {
                piece(&mut v, "Press ", false);
                piece(&mut v, "[Esc]", true);
                piece(&mut v, " to return back.", false);
            },
            AppMode::Table => {
                piece(&mut v, "Press ", false);
                piece(&mut v, "[Esc]", true);
                piece(&mut v, " to return back. ", false);
                piece(&mut v, "[\u{2191}]", true);
                piece(&mut v, " to move up.", false);
                piece(&mut v, "[\u{2193}]", true);
                piece(&mut v, " to move down.", false);
            },
        }
        piece(&mut v, " Press ", false);
        piece(&mut v, "[Ctrl+C]", true);
        piece(&mut v, " to exit.", false);
        proof {
            assert(pieces_view(v@) =~= footer_hint(mode));
        }
        v
    }

    /// The title under the table for a mode.
    pub fn mode_title(mode: AppMode) -> (s: String)
        ensures
            s@ == mode_title(mode),
    {
        match mode {
            AppMode::Normal => String::from_str(" Normal Mode "),
            AppMode::Insert => String::from_str(" Enter file download link. "),
            AppMode::Table => String::from_str(" Table Mode "),
        }
    }

    /// Where the cursor is drawn in the input box at `(area_x, area_y)`: inside
    /// the border, after `character_index` characters.
    pub fn cursor_position(area_x: u16, area_y: u16, character_index: usize) -> (p: (u16, u16))
        requires
            area_x + (character_index as u16) + 1 <= u16::MAX,
            area_y + 1 <= u16::MAX,
        ensures
            p.0 == area_x + (character_index as u16) + 1,
            p.1 == area_y + 1,
    {
        (area_x + character_index as u16 + 1, area_y + 1)
    }
}

} // verus!
