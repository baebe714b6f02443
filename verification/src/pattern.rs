//! The line patterns of a resource dump, matched by the `regex` crate.
//!
//! Each pattern looks for a key, a colon and a token: `#` and three to eight
//! hexadecimal digits. Whether the token writes a color is settled when it is
//! read; the patterns only find it.

use vstd::prelude::*;

verus! {

/// A line that sets the background.
pub const BACKGROUND_PATTERN: &'static str = r".*background:\s*?(#[a-fA-F0-9]{3,8})\s?";

/// A line that sets the foreground.
pub const FOREGROUND_PATTERN: &'static str = r".*foreground:\s*?(#[a-fA-F0-9]{3,8})\s?";

/// A line that sets the cursor color.
pub const CURSOR_PATTERN: &'static str = r".*cursorColor:\s*?(#[a-fA-F0-9]{3,8})\s?";

/// A line that sets a numbered color.
pub const COLOR_PATTERN: &'static str = r".*(color([0-9]{1,2})):\s*?(#[a-fA-F0-9]{3,8})\s?";

/// The capture groups of the leftmost match of the regular expression
/// `pattern` in `haystack`, the whole match first, a group that took no part
/// as `None`; `None` where nothing matches or `pattern` is no regular
/// expression.
pub uninterp spec fn regex_captures(pattern: Seq<char>, haystack: Seq<char>) -> Option<
    Seq<Option<Seq<char>>>,
>;

/// `regex::Regex::new` compiles the pattern and `regex::Regex::captures`
/// searches the haystack. The contract names what comes back, each group as
/// the text it matched, and claims nothing more of it.
#[verifier::external_body]
pub(crate) fn captures(pattern: &str, haystack: &str) -> (r: Option<Vec<Option<String>>>)
    ensures
        r.deep_view() == regex_captures(pattern@, haystack@),
{
    let re = regex::Regex::new(pattern).ok()?;
    let found = re.captures(haystack)?;
    Some(found.iter().map(|m| m.map(|m| m.as_str().to_string())).collect())
}

/// The group at `index`, `None` where there is no such group or it took no
/// part in the match.
pub open spec fn group_at(groups: Seq<Option<Seq<char>>>, index: int) -> Option<Seq<char>> {
    if 0 <= index < groups.len() {
        groups[index]
    } else {
        None
    }
}

/// The group at `index`.
pub fn group(groups: &Vec<Option<String>>, index: usize) -> (r: Option<&str>)
    ensures
        r.deep_view() == group_at(groups.deep_view(), index as int),
{
    if index < groups.len() {
        match &groups[index] {
            Some(text) => Some(text.as_str()),
            None => None,
        }
    } else {
        None
    }
}

} // verus!
