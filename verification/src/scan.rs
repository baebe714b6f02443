//! The resource-dump scanner: each line is tried against four patterns, and
//! the first that matches sets one slot of the palette.

use vstd::prelude::*;
use crate::pattern::{
    captures, group, group_at, regex_captures, BACKGROUND_PATTERN, COLOR_PATTERN, CURSOR_PATTERN,
    FOREGROUND_PATTERN,
};
use crate::structures::color::Color;
use crate::structures::colors::{Colors, ColorsView};
use crate::text::{all_decimal, chars_of, decimal_value, lines_of, split_lines};

verus! {

/// One of the three named slots of a palette.
#[derive(Clone, Copy, Debug, PartialEq, Eq, Structural)]
pub enum Slot {
    Background,
    Foreground,
    Cursor,
}

/// What a line did to the palette.
#[derive(Clone, Copy, Debug, PartialEq, Eq, Structural)]
pub enum LineOutcome {
    /// No pattern matched; the palette is unchanged.
    Unmatched,
    /// A slot was set.
    Applied,
    /// A pattern matched, but what it captured is no hex color; the palette
    /// is unchanged.
    InvalidToken,
    /// The numbered pattern matched with a number that names no slot; the
    /// palette is unchanged.
    IndexOutOfRange,
}

/// The color that a captured token writes, if it writes one.
pub open spec fn token_color(token: Option<Seq<char>>) -> Option<Color> {
    match token {
        Some(t) => match Color::spec_parse(t) {
            Ok(c) => Some(c),
            Err(_) => None,
        },
        None => None,
    }
}

/// The slot that captured digits name: one or two decimal digits that write
/// a number below sixteen.
pub open spec fn slot_index(digits: Option<Seq<char>>) -> Option<int> {
    match digits {
        Some(d) => if 1 <= d.len() <= 2 && all_decimal(d) && decimal_value(d) < 16 {
            Some(decimal_value(d) as int)
        } else {
            None
        },
        None => None,
    }
}

/// The palette after a named slot's pattern captured `token`.
pub open spec fn with_named(p: ColorsView, slot: Slot, token: Option<Seq<char>>) -> ColorsView {
    match token_color(token) {
        Some(c) => match slot {
            Slot::Background => ColorsView { background: c, ..p },
            Slot::Foreground => ColorsView { foreground: c, ..p },
            Slot::Cursor => ColorsView { cursor: c, ..p },
        },
        None => p,
    }
}

/// The palette after the numbered pattern captured `digits` and `token`.
pub open spec fn with_numbered(
    p: ColorsView,
    digits: Option<Seq<char>>,
    token: Option<Seq<char>>,
) -> ColorsView {
    match (token_color(token), slot_index(digits)) {
        (Some(c), Some(i)) => ColorsView { colors: p.colors.update(i, c), ..p },
        _ => p,
    }
}

/// What the numbered pattern's captures do.
pub open spec fn numbered_outcome(digits: Option<Seq<char>>, token: Option<Seq<char>>)
    -> LineOutcome {
    if token_color(token) is None {
        LineOutcome::InvalidToken
    } else if slot_index(digits) is None {
        LineOutcome::IndexOutOfRange
    } else {
        LineOutcome::Applied
    }
}

/// What a named pattern's capture does.
pub open spec fn named_outcome(token: Option<Seq<char>>) -> LineOutcome {
    if token_color(token) is None {
        LineOutcome::InvalidToken
    } else {
        LineOutcome::Applied
    }
}

/// The palette after one line: the patterns are tried in the order
/// background, foreground, cursor, numbered, and only the first that matches
/// counts.
pub open spec fn scan_line(p: ColorsView, line: Seq<char>) -> ColorsView {
    if let Some(g) = regex_captures(BACKGROUND_PATTERN@, line) {
        with_named(p, Slot::Background, group_at(g, 1))
    } else if let Some(g) = regex_captures(FOREGROUND_PATTERN@, line) {
        with_named(p, Slot::Foreground, group_at(g, 1))
    } else if let Some(g) = regex_captures(CURSOR_PATTERN@, line) {
        with_named(p, Slot::Cursor, group_at(g, 1))
    } else if let Some(g) = regex_captures(COLOR_PATTERN@, line) {
        with_numbered(p, group_at(g, 2), group_at(g, 3))
    } else {
        p
    }
}

/// What one line does.
pub open spec fn line_outcome(line: Seq<char>) -> LineOutcome {
    if let Some(g) = regex_captures(BACKGROUND_PATTERN@, line) {
        named_outcome(group_at(g, 1))
    } else if let Some(g) = regex_captures(FOREGROUND_PATTERN@, line) {
        named_outcome(group_at(g, 1))
    } else if let Some(g) = regex_captures(CURSOR_PATTERN@, line) {
        named_outcome(group_at(g, 1))
    } else if let Some(g) = regex_captures(COLOR_PATTERN@, line) {
        numbered_outcome(group_at(g, 2), group_at(g, 3))
    } else {
        LineOutcome::Unmatched
    }
}

/// The palette after the first `count` lines, taken in order, so that of two
/// lines that set one slot the later counts.
pub open spec fn scan_lines(p: ColorsView, lines: Seq<Seq<char>>, count: nat) -> ColorsView
    decreases count,
{
    if count == 0 {
        p
    } else {
        scan_line(scan_lines(p, lines, (count - 1) as nat), lines[count - 1])
    }
}

/// The palette that a resource dump writes: the default palette, changed by
/// every line of the text in turn.
pub open spec fn scan_text(text: Seq<char>) -> ColorsView {
    let lines = lines_of(text);
    scan_lines(ColorsView::default_palette(), lines, lines.len())
}

/// Sets a named slot from a captured token. A token that writes no color
/// leaves the palette as it is.
pub fn set_named(p: &mut Colors, slot: Slot, token: Option<&str>) -> (o: LineOutcome)
    ensures
        final(p)@ == with_named(old(p)@, slot, token.deep_view()),
        o == named_outcome(token.deep_view()),
{
    let color = match token {
        Some(t) => match Color::parse(t) {
            Ok(c) => Some(c),
            Err(_) => None,
        },
        None => None,
    };
    match color {
        Some(c) => {
            match slot {
                Slot::Background => {
                    p.background = c;
                },
                Slot::Foreground => {
                    p.foreground = c;
                },
                Slot::Cursor => {
                    p.cursor = c;
                },
            }
            LineOutcome::Applied
        },
        None => LineOutcome::InvalidToken,
    }
}

/// The slot that captured digits name.
pub fn read_index(digits: Option<&str>) -> (r: Option<usize>)
    ensures
        match r {
            Some(i) => slot_index(digits.deep_view()) == Some(i as int) && i < 16,
            None => slot_index(digits.deep_view()) is None,
        },
{
    match digits {
        Some(text) => {
            let d = chars_of(text);
            reveal_with_fuel(decimal_value, 3);
            if d.len() == 1 {
                let c0 = d[0];
                if c0 >= '0' && c0 <= '9' {
                    Some((c0 as u32 - 48) as usize)
                } else {
                    None
                }
            } else if d.len() == 2 {
                let c0 = d[0];
                let c1 = d[1];
                if c0 >= '0' && c0 <= '9' && c1 >= '0' && c1 <= '9' {
                    let value: u32 = (c0 as u32 - 48) * 10 + (c1 as u32 - 48);
                    if value < 16 {
                        Some(value as usize)
                    } else {
                        None
                    }
                } else {
                    None
                }
            } else {
                None
            }
        },
        None => None,
    }
}

/// Sets a numbered slot from captured digits and a captured token. A token
/// that writes no color, or digits that name no slot, leave the palette as it
/// is.
pub fn set_numbered(p: &mut Colors, digits: Option<&str>, token: Option<&str>) -> (o: LineOutcome)
    ensures
        final(p)@ == with_numbered(old(p)@, digits.deep_view(), token.deep_view()),
        o == numbered_outcome(digits.deep_view(), token.deep_view()),
{
    let color = match token {
        Some(t) => match Color::parse(t) {
            Ok(c) => Some(c),
            Err(_) => None,
        },
        None => None,
    };
    match color {
        Some(c) => match read_index(digits) {
            Some(i) => {
                p.colors[i] = c;
                LineOutcome::Applied
            },
            None => LineOutcome::IndexOutOfRange,
        },
        None => LineOutcome::InvalidToken,
    }
}

/// Applies one line of a resource dump to the palette.
pub fn apply_line(p: &mut Colors, line: &str) -> (o: LineOutcome)
    ensures
        final(p)@ == scan_line(old(p)@, line@),
        o == line_outcome(line@),
{
    if let Some(g) = captures(BACKGROUND_PATTERN, line) {
        return set_named(p, Slot::Background, group(&g, 1));
    }
    if let Some(g) = captures(FOREGROUND_PATTERN, line) {
        return set_named(p, Slot::Foreground, group(&g, 1));
    }
    if let Some(g) = captures(CURSOR_PATTERN, line) {
        return set_named(p, Slot::Cursor, group(&g, 1));
    }
    if let Some(g) = captures(COLOR_PATTERN, line) {
        return set_numbered(p, group(&g, 2), group(&g, 3));
    }
    LineOutcome::Unmatched
}

/// Reads the palette of a resource dump.
pub fn scan(text: &str) -> (p: Colors)
    ensures
        p@ == scan_text(text@),
{
    let lines = split_lines(text);
    let mut p = Colors::default();
    let mut i: usize = 0;
    while i < lines.len()
        invariant
            i <= lines.len(),
            lines.deep_view() == lines_of(text@),
            p@ == scan_lines(ColorsView::default_palette(), lines_of(text@), i as nat),
        decreases lines.len() - i,
    {
        apply_line(&mut p, lines[i].as_str());
        i = i + 1;
    }
    p
}

/// Whether some line of the text sets the cursor color.
pub open spec fn has_cursor_line(text: Seq<char>) -> bool {
    exists|i: int|
        0 <= i < lines_of(text).len() && (#[trigger] regex_captures(
            CURSOR_PATTERN@,
            lines_of(text)[i],
        )) is Some
}

/// Whether some line of the text sets the cursor color.
pub fn find_cursor_line(text: &str) -> (found: bool)
    ensures
        found == has_cursor_line(text@),
{
    let lines = split_lines(text);
    let mut i: usize = 0;
    while i < lines.len()
        invariant
            i <= lines.len(),
            lines.deep_view() == lines_of(text@),
            forall|j: int|
                0 <= j < i ==> (#[trigger] regex_captures(CURSOR_PATTERN@, lines_of(text@)[j]))
                    is None,
        decreases lines.len() - i,
    {
        assert(lines.deep_view()[i as int] == lines@[i as int]@);
        if captures(CURSOR_PATTERN, lines[i].as_str()).is_some() {
            return true;
        }
        i = i + 1;
    }
    false
}

/// A numbered color whose number is above fifteen changes nothing: captured
/// digits that write a number above fifteen leave the palette as it is,
/// whatever the token, and so does a line whose first match is the numbered
/// pattern with such digits.
pub proof fn lemma_high_index_ignored(
    p: ColorsView,
    digits: Seq<char>,
    token: Option<Seq<char>>,
    line: Seq<char>,
)
    requires
        decimal_value(digits) > 15,
    ensures
        with_numbered(p, Some(digits), token) == p,
        numbered_outcome(Some(digits), token) != LineOutcome::Applied,
        ({
            &&& regex_captures(BACKGROUND_PATTERN@, line) is None
            &&& regex_captures(FOREGROUND_PATTERN@, line) is None
            &&& regex_captures(CURSOR_PATTERN@, line) is None
            &&& regex_captures(COLOR_PATTERN@, line) is Some
            &&& group_at(regex_captures(COLOR_PATTERN@, line)->0, 2) == Some(digits)
        }) ==> scan_line(p, line) == p && line_outcome(line) != LineOutcome::Applied,
{
}

/// Of two lines that set the background, the later counts: after a line that
/// the background pattern matches with a token that writes a color, the
/// background is that color, whatever it was before, and every other slot is
/// as it was.
pub proof fn lemma_last_background_counts(p: ColorsView, line: Seq<char>)
    ensures
        match regex_captures(BACKGROUND_PATTERN@, line) {
            Some(g) => match token_color(group_at(g, 1)) {
                Some(c) => scan_line(p, line) == (ColorsView { background: c, ..p }),
                None => scan_line(p, line) == p,
            },
            None => true,
        },
{
}

/// A line that none of the four patterns matches changes nothing.
pub proof fn lemma_unmatched_line_ignored(p: ColorsView, line: Seq<char>)
    ensures
        line_outcome(line) == LineOutcome::Unmatched ==> scan_line(p, line) == p,
        line_outcome(line) == LineOutcome::InvalidToken ==> scan_line(p, line) == p,
        line_outcome(line) == LineOutcome::IndexOutOfRange ==> scan_line(p, line) == p,
{
}

/// Scanning keeps the palette's shape: sixteen numbered colors.
pub proof fn lemma_scan_keeps_sixteen(p: ColorsView, lines: Seq<Seq<char>>, count: nat)
    requires
        p.colors.len() == 16,
    ensures
        scan_lines(p, lines, count).colors.len() == 16,
    decreases count,
{
    if count > 0 {
        lemma_scan_keeps_sixteen(p, lines, (count - 1) as nat);
    }
}

} // verus!
