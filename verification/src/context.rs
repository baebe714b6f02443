//! The render context: the flat, ordered map of text forms that templates
//! are rendered from, and its form as a JSON object.

use vstd::prelude::*;
use crate::structures::alpha::alpha_text;
use crate::structures::color::Color;
use crate::structures::colors::{numbered, numbered_name, Colors, ColorsView};
use crate::text::{decimal, hex_char, hex_digit, hex_value, push_decimal};

verus! {

/// One entry of the render context: a key and its text.
pub type Entry = (Seq<char>, Seq<char>);

/// The ten entries of one palette slot: under the slot's name the `#RRGGBB`
/// form, and under the name with a suffix each of the other forms.
pub open spec fn slot_entries(name: Seq<char>, c: Color) -> Seq<Entry> {
    seq![
        (name, c.spec_hex()),
        (name + "_rgb"@, c.spec_rgb()),
        (name + "_rgba"@, c.spec_rgba()),
        (name + "_hex8"@, c.spec_hex8()),
        (name + "_xrgba"@, c.spec_xrgba()),
        (name + "_alpha"@, alpha_text(c.a)),
        (name + "_hex_stripped"@, c.spec_hex_stripped()),
        (name + "_hex8_stripped"@, c.spec_hex8_stripped()),
        (name + "_rgb_stripped"@, c.spec_rgb()),
        (name + "_rgba_stripped"@, c.spec_rgba()),
    ]
}

/// The entries of the first `count` numbered slots, in order.
pub open spec fn numbered_entries(colors: Seq<Color>, count: nat) -> Seq<Entry>
    decreases count,
{
    if count == 0 {
        Seq::<Entry>::empty()
    } else {
        numbered_entries(colors, (count - 1) as nat) + slot_entries(
            numbered_name((count - 1) as nat),
            colors[count - 1],
        )
    }
}

/// The entries of a whole palette: background, foreground, cursor, then the
/// sixteen numbered slots.
pub open spec fn palette_entries(p: ColorsView) -> Seq<Entry> {
    slot_entries("background"@, p.background) + slot_entries("foreground"@, p.foreground)
        + slot_entries("cursor"@, p.cursor) + numbered_entries(p.colors, 16)
}

/// The render context of a palette and a wallpaper path: the background's
/// alpha as a fraction and in percent, the palette's entries, and the path.
pub open spec fn context_entries(p: ColorsView, wallpaper: Seq<char>) -> Seq<Entry> {
    seq![
        ("alpha"@, alpha_text(p.background.a)),
        ("alpha_percentage"@, decimal(p.background.spec_alpha_percentage() as nat)),
    ] + palette_entries(p) + seq![("wallpaper"@, wallpaper)]
}

/// One character as it stands inside a JSON string.
pub open spec fn json_escape_char(c: char) -> Seq<char> {
    if c == '"' {
        seq!['\\', '"']
    } else if c == '\\' {
        seq!['\\', '\\']
    } else if c <= '\u{1f}' {
        seq!['\\', 'u', '0', '0', hex_char(c as int / 16), hex_char(c as int % 16)]
    } else {
        seq![c]
    }
}

/// A text as it stands inside a JSON string.
pub open spec fn json_escape(text: Seq<char>) -> Seq<char>
    decreases text.len(),
{
    if text.len() == 0 {
        Seq::<char>::empty()
    } else {
        json_escape(text.drop_last()) + json_escape_char(text.last())
    }
}

/// One member of the JSON object: a tab, the key, a colon and the value.
pub open spec fn json_member(e: Entry) -> Seq<char> {
    seq!['\t', '"'] + json_escape(e.0) + seq!['"', ':', ' ', '"'] + json_escape(e.1) + seq!['"']
}

/// The first `count` members, a comma and a line break between two.
pub open spec fn json_members(entries: Seq<Entry>, count: nat) -> Seq<char>
    decreases count,
{
    if count == 0 {
        Seq::<char>::empty()
    } else if count == 1 {
        json_member(entries[0])
    } else {
        json_members(entries, (count - 1) as nat) + seq![',', '\n'] + json_member(
            entries[count - 1],
        )
    }
}

/// The entries as a JSON object of strings, one member a line.
pub open spec fn json_object(entries: Seq<Entry>) -> Seq<char> {
    seq!['{', '\n'] + json_members(entries, entries.len()) + seq!['\n', '}']
}

/// Appends one entry.
fn push_entry(out: &mut Vec<(String, String)>, key: String, value: String)
    ensures
        final(out).deep_view() == old(out).deep_view().push((key@, value@)),
{
    out.push((key, value));
}

/// The key of a form: the slot's name and the form's suffix.
fn suffixed(name: &str, suffix: &str) -> (key: String)
    ensures
        key@ == name@ + suffix@,
{
    let mut key = String::from_str(name);
    key.append(suffix);
    key
}

/// Appends the ten entries of one slot.
fn push_slot(out: &mut Vec<(String, String)>, name: &str, c: &Color)
    ensures
        final(out).deep_view() == old(out).deep_view() + slot_entries(name@, *c),
{
    push_entry(out, String::from_str(name), c.hex());
    push_entry(out, suffixed(name, "_rgb"), c.rgb());
    push_entry(out, suffixed(name, "_rgba"), c.rgba());
    push_entry(out, suffixed(name, "_hex8"), c.hex8());
    push_entry(out, suffixed(name, "_xrgba"), c.xrgba());
    push_entry(out, suffixed(name, "_alpha"), c.alpha());
    push_entry(out, suffixed(name, "_hex_stripped"), c.hex_stripped());
    push_entry(out, suffixed(name, "_hex8_stripped"), c.hex8_stripped());
    push_entry(out, suffixed(name, "_rgb_stripped"), c.rgb_stripped());
    push_entry(out, suffixed(name, "_rgba_stripped"), c.rgba_stripped());
}

/// The render context of a palette and a wallpaper path.
pub fn context_of(p: &Colors, wallpaper: &str) -> (out: Vec<(String, String)>)
    ensures
        out.deep_view() == context_entries(p@, wallpaper@),
{
    let mut out: Vec<(String, String)> = Vec::new();
    push_entry(&mut out, String::from_str("alpha"), p.background.alpha());
    let mut percentage = String::new();
    push_decimal(&mut percentage, p.background.alpha_percentage());
    push_entry(&mut out, String::from_str("alpha_percentage"), percentage);
    let ghost head = out.deep_view();
    push_slot(&mut out, "background", &p.background);
    push_slot(&mut out, "foreground", &p.foreground);
    push_slot(&mut out, "cursor", &p.cursor);
    let ghost named = slot_entries("background"@, p.background) + slot_entries(
        "foreground"@,
        p.foreground,
    ) + slot_entries("cursor"@, p.cursor);
    let mut i: u8 = 0;
    while i < 16
        invariant
            i <= 16,
            out.deep_view() == head + named + numbered_entries(p.colors@, i as nat),
        decreases 16 - i,
    {
        let name = numbered(i);
        push_slot(&mut out, name.as_str(), &p.colors[i as usize]);
        i = i + 1;
    }
    push_entry(&mut out, String::from_str("wallpaper"), String::from_str(wallpaper));
    out
}

/// Appends one character as it stands inside a JSON string.
fn push_escaped_char(out: &mut String, c: char)
    ensures
        final(out)@ == old(out)@ + json_escape_char(c),
{
    if c == '"' {
        out.push('\\');
        out.push('"');
    } else if c == '\\' {
        out.push('\\');
        out.push('\\');
    } else if c <= '\u{1f}' {
        let v: u8 = c as u8;
        out.push('\\');
        out.push('u');
        out.push('0');
        out.push('0');
        out.push(hex_digit(v / 16));
        out.push(hex_digit(v % 16));
    } else {
        out.push(c);
    }
}

/// Appends a text as it stands inside a JSON string.
fn push_escaped(out: &mut String, text: &str)
    ensures
        final(out)@ == old(out)@ + json_escape(text@),
{
    for c in it: text.chars()
        invariant
            it.seq() == text@,
            out@ == old(out)@ + json_escape(text@.take(it.index())),
    {
        let ghost k = it.index();
        assert(text@.take(k + 1).drop_last() == text@.take(k));
        push_escaped_char(out, c);
    }
    assert(text@.take(text@.len() as int) == text@);
}

/// Appends one member of the JSON object.
fn push_member(out: &mut String, key: &str, value: &str)
    ensures
        final(out)@ == old(out)@ + json_member((key@, value@)),
{
    out.push('\t');
    out.push('"');
    push_escaped(out, key);
    out.push('"');
    out.push(':');
    out.push(' ');
    out.push('"');
    push_escaped(out, value);
    out.push('"');
}

/// Writes entries as a JSON object of strings, in their order.
pub fn write_json(entries: &Vec<(String, String)>) -> (out: String)
    ensures
        out@ == json_object(entries.deep_view()),
{
    let ghost model = entries.deep_view();
    let mut out = String::new();
    out.push('{');
    out.push('\n');
    let mut i: usize = 0;
    while i < entries.len()
        invariant
            i <= entries.len(),
            model == entries.deep_view(),
            out@ == seq!['{', '\n'] + json_members(model, i as nat),
        decreases entries.len() - i,
    {
        if i > 0 {
            out.push(',');
            out.push('\n');
        }
        push_member(&mut out, entries[i].0.as_str(), entries[i].1.as_str());
        i = i + 1;
    }
    out.push('\n');
    out.push('}');
    out
}

/// The numbered slots give ten entries each, and the keys of these entries
/// do not depend on the colors.
pub proof fn lemma_numbered_keys(a: Seq<Color>, b: Seq<Color>, count: nat)
    ensures
        numbered_entries(a, count).len() == 10 * count,
        numbered_entries(b, count).len() == 10 * count,
        forall|i: int|
            0 <= i < 10 * count ==> (#[trigger] numbered_entries(a, count)[i]).0
                == numbered_entries(b, count)[i].0,
    decreases count,
{
    if count > 0 {
        let less = (count - 1) as nat;
        lemma_numbered_keys(a, b, less);
        let name = numbered_name(less);
        assert(slot_entries(name, a[count - 1]).len() == 10);
        assert(slot_entries(name, b[count - 1]).len() == 10);
        assert forall|i: int| 0 <= i < 10 * count implies (#[trigger] numbered_entries(
            a,
            count,
        )[i]).0 == numbered_entries(b, count)[i].0 by {
            if i >= 10 * less {
                let k = i - 10 * less;
                assert(numbered_entries(a, count)[i] == slot_entries(name, a[count - 1])[k]);
                assert(numbered_entries(b, count)[i] == slot_entries(name, b[count - 1])[k]);
            } else {
                assert(numbered_entries(a, count)[i] == numbered_entries(a, less)[i]);
                assert(numbered_entries(b, count)[i] == numbered_entries(b, less)[i]);
            }
        }
    }
}

/// The render context always has the same 193 keys in the same order,
/// whatever the palette and the wallpaper path.
pub proof fn lemma_context_keys(p: ColorsView, v: Seq<char>, q: ColorsView, w: Seq<char>)
    ensures
        context_entries(p, v).len() == 193,
        context_entries(q, w).len() == 193,
        forall|i: int|
            0 <= i < 193 ==> (#[trigger] context_entries(p, v)[i]).0 == context_entries(q, w)[i].0,
{
    lemma_numbered_keys(p.colors, q.colors, 16);
    let np = numbered_entries(p.colors, 16);
    let nq = numbered_entries(q.colors, 16);
    assert forall|i: int| 0 <= i < 193 implies (#[trigger] context_entries(p, v)[i]).0
        == context_entries(q, w)[i].0 by {
        if 32 <= i < 192 {
            assert(context_entries(p, v)[i] == np[i - 32]);
            assert(context_entries(q, w)[i] == nq[i - 32]);
        }
    }
}

/// The wallpaper path stands in the last entry, under the key `wallpaper`,
/// and in no other: two contexts of one palette agree in every other entry.
pub proof fn lemma_wallpaper_entry(p: ColorsView, v: Seq<char>, w: Seq<char>)
    ensures
        context_entries(p, v).len() == 193,
        context_entries(p, w).len() == 193,
        context_entries(p, v)[192] == ("wallpaper"@, v),
        context_entries(p, w)[192] == ("wallpaper"@, w),
        forall|i: int| 0 <= i < 192 ==> #[trigger] context_entries(p, v)[i] == context_entries(p, w)[i],
{
    lemma_numbered_keys(p.colors, p.colors, 16);
    let head = seq![
        ("alpha"@, alpha_text(p.background.a)),
        ("alpha_percentage"@, decimal(p.background.spec_alpha_percentage() as nat)),
    ] + palette_entries(p);
    assert(head.len() == 192);
    assert(context_entries(p, v) == head + seq![("wallpaper"@, v)]);
    assert(context_entries(p, w) == head + seq![("wallpaper"@, w)]);
    assert forall|i: int| 0 <= i < 192 implies #[trigger] context_entries(p, v)[i]
        == context_entries(p, w)[i] by {
        assert(context_entries(p, v)[i] == head[i]);
        assert(context_entries(p, w)[i] == head[i]);
    }
}

/// What a JSON string's inside stands for: a backslash with `u` and four
/// hexadecimal digits is the character of that number (here always below
/// 256), a backslash with any other character is that character, and every
/// other character is itself.
pub open spec fn json_unescape(text: Seq<char>) -> Seq<char>
    decreases text.len(),
{
    if text.len() == 0 {
        Seq::<char>::empty()
    } else if text[0] == '\\' && text.len() >= 2 {
        if text[1] == 'u' && text.len() >= 6 {
            seq![((hex_value(text[4]) * 16 + hex_value(text[5])) as u8) as char] + json_unescape(
                text.skip(6),
            )
        } else {
            seq![text[1]] + json_unescape(text.skip(2))
        }
    } else {
        seq![text[0]] + json_unescape(text.skip(1))
    }
}

/// Escaping goes character by character, from the front as from the back.
pub proof fn lemma_json_escape_front(c: char, rest: Seq<char>)
    ensures
        json_escape(seq![c] + rest) == json_escape_char(c) + json_escape(rest),
    decreases rest.len(),
{
    let whole = seq![c] + rest;
    if rest.len() == 0 {
        assert(whole.drop_last() =~= Seq::<char>::empty());
        assert(json_escape(whole.drop_last()) =~= Seq::<char>::empty());
        assert(json_escape(whole) =~= json_escape_char(c) + json_escape(rest));
    } else {
        assert(whole.drop_last() =~= seq![c] + rest.drop_last());
        lemma_json_escape_front(c, rest.drop_last());
        assert(json_escape(whole) =~= json_escape_char(c) + json_escape(rest));
    }
}

/// One escaped character at the front of a text is read back as that
/// character.
pub proof fn lemma_json_unescape_char(c: char, rest: Seq<char>)
    ensures
        json_unescape(json_escape_char(c) + rest) == seq![c] + json_unescape(rest),
{
    let text = json_escape_char(c) + rest;
    if c == '"' || c == '\\' {
        assert(text.skip(2) =~= rest);
    } else if c <= '\u{1f}' {
        assert(text.skip(6) =~= rest);
        let v = c as int;
        assert(hex_value(hex_char(v / 16)) == v / 16);
        assert(hex_value(hex_char(v % 16)) == v % 16);
    } else {
        assert(text.skip(1) =~= rest);
    }
}

/// What is escaped is read back unchanged, so the JSON object holds every
/// key and every value of the render context exactly.
pub proof fn lemma_json_escape_round_trip(text: Seq<char>)
    ensures
        json_unescape(json_escape(text)) == text,
    decreases text.len(),
{
    if text.len() == 0 {
        assert(json_escape(text) =~= Seq::<char>::empty());
    } else {
        let rest = text.skip(1);
        assert(text =~= seq![text[0]] + rest);
        lemma_json_escape_front(text[0], rest);
        lemma_json_unescape_char(text[0], json_escape(rest));
        lemma_json_escape_round_trip(rest);
    }
}

} // verus!
