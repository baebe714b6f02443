//! Reading a configuration's fields out of a table document.

use vstd::prelude::*;
use crate::document::Item;
use crate::error::{hex_failure, ConfigError, ConfigErrorView};
use crate::structures::color::Color;
use crate::structures::colors::{numbered, numbered_name, Colors, ColorsView};
use crate::structures::wallpaper::{Wallpaper, WallpaperView};

verus! {

/// The string under `key`: `None` where the key is absent, an error where its
/// value is no string.
pub open spec fn text_field(table: Item, key: Seq<char>) -> Result<
    Option<Seq<char>>,
    ConfigErrorView,
> {
    match table.field(key) {
        None => Ok(None),
        Some(Item::Text(s)) => Ok(Some(s@)),
        Some(_) => Err(ConfigErrorView::TypeMismatch(key)),
    }
}

/// The boolean under `key`; any other value counts as absent.
pub open spec fn flag_field(table: Item, key: Seq<char>) -> Option<bool> {
    match table.field(key) {
        Some(Item::Flag(b)) => Some(b),
        _ => None,
    }
}

/// The first `count` items as strings, `None` where one of them is no string.
pub open spec fn texts_of(items: Seq<Item>, count: nat) -> Option<Seq<Seq<char>>>
    decreases count,
{
    if count == 0 {
        Some(Seq::<Seq<char>>::empty())
    } else {
        match (texts_of(items, (count - 1) as nat), items[count - 1]) {
            (Some(texts), Item::Text(s)) => Some(texts.push(s@)),
            _ => None,
        }
    }
}

/// The array of strings under `key`: `None` where the key is absent, an error
/// where its value is no array of strings.
pub open spec fn list_field(table: Item, key: Seq<char>) -> Result<
    Option<Seq<Seq<char>>>,
    ConfigErrorView,
> {
    match table.field(key) {
        None => Ok(None),
        Some(Item::List(items)) => match texts_of(items@, items@.len()) {
            Some(texts) => Ok(Some(texts)),
            None => Err(ConfigErrorView::TypeMismatch(key)),
        },
        Some(_) => Err(ConfigErrorView::TypeMismatch(key)),
    }
}

/// The wallpaper settings of a document: `None` without a `wallpaper` key, an
/// error where its value is no table or `path` or `command` has the wrong
/// shape.
pub open spec fn wallpaper_of(doc: Item) -> Result<Option<WallpaperView>, ConfigErrorView> {
    match doc.field("wallpaper"@) {
        None => Ok(None),
        Some(table) => if !(table is Table) {
            Err(ConfigErrorView::TypeMismatch("wallpaper"@))
        } else {
            match text_field(table, "path"@) {
                Err(e) => Err(e),
                Ok(path) => match list_field(table, "command"@) {
                    Err(e) => Err(e),
                    Ok(command) => Ok(
                        Some(WallpaperView { enable: flag_field(table, "enable"@), path, command }),
                    ),
                },
            }
        },
    }
}

/// The color under `key` in the `colors` table: the key has to be there, and
/// its value a string that is a hex token.
pub open spec fn color_field(table: Item, key: Seq<char>) -> Result<Color, ConfigErrorView> {
    match table.field(key) {
        None => Err(ConfigErrorView::MissingField(key)),
        Some(Item::Text(s)) => match Color::spec_parse(s@) {
            Ok(c) => Ok(c),
            Err(why) => Err(hex_failure(s@, why)),
        },
        Some(_) => Err(ConfigErrorView::TypeMismatch(key)),
    }
}

/// The first `count` numbered colors of the `colors` table, or the error of
/// the first that fails.
pub open spec fn numbered_fields(table: Item, count: nat) -> Result<Seq<Color>, ConfigErrorView>
    decreases count,
{
    if count == 0 {
        Ok(Seq::<Color>::empty())
    } else {
        match numbered_fields(table, (count - 1) as nat) {
            Err(e) => Err(e),
            Ok(colors) => match color_field(table, numbered_name((count - 1) as nat)) {
                Err(e) => Err(e),
                Ok(c) => Ok(colors.push(c)),
            },
        }
    }
}

/// The palette of a `colors` table: all nineteen colors, or the error of the
/// first that fails, taken in the order background, foreground, cursor,
/// `color0` to `color15`.
pub open spec fn palette_of_table(table: Item) -> Result<ColorsView, ConfigErrorView> {
    match color_field(table, "background"@) {
        Err(e) => Err(e),
        Ok(background) => match color_field(table, "foreground"@) {
            Err(e) => Err(e),
            Ok(foreground) => match color_field(table, "cursor"@) {
                Err(e) => Err(e),
                Ok(cursor) => match numbered_fields(table, 16) {
                    Err(e) => Err(e),
                    Ok(colors) => Ok(ColorsView { background, foreground, cursor, colors }),
                },
            },
        },
    }
}

/// The palette of a document: `None` without a `colors` key, an error where
/// its value is no table or the table is not complete and well-formed.
pub open spec fn palette_of(doc: Item) -> Result<Option<ColorsView>, ConfigErrorView> {
    match doc.field("colors"@) {
        None => Ok(None),
        Some(table) => if !(table is Table) {
            Err(ConfigErrorView::TypeMismatch("colors"@))
        } else {
            match palette_of_table(table) {
                Err(e) => Err(e),
                Ok(p) => Ok(Some(p)),
            }
        },
    }
}

/// Reads the string under `key`.
pub fn read_text(table: &Item, key: &str) -> (r: Result<Option<String>, ConfigError>)
    ensures
        match r {
            Ok(v) => text_field(*table, key@) == Ok::<_, ConfigErrorView>(v.deep_view()),
            Err(e) => text_field(*table, key@) == Err::<Option<Seq<char>>, _>(e@),
        },
{
    match table.get(key) {
        None => Ok(None),
        Some(Item::Text(s)) => Ok(Some(s.clone())),
        Some(_) => Err(ConfigError::TypeMismatch(String::from_str(key))),
    }
}

/// Reads the boolean under `key`.
pub fn read_flag(table: &Item, key: &str) -> (r: Option<bool>)
    ensures
        r == flag_field(*table, key@),
{
    match table.get(key) {
        Some(Item::Flag(b)) => Some(*b),
        _ => None,
    }
}

/// Reads the array of strings under `key`.
pub fn read_list(table: &Item, key: &str) -> (r: Result<Option<Vec<String>>, ConfigError>)
    ensures
        match r {
            Ok(v) => list_field(*table, key@) == Ok::<_, ConfigErrorView>(v.deep_view()),
            Err(e) => list_field(*table, key@) == Err::<Option<Seq<Seq<char>>>, _>(e@),
        },
{
    match table.get(key) {
        None => Ok(None),
        Some(Item::List(items)) => {
            let mut texts: Vec<String> = Vec::new();
            let mut i: usize = 0;
            while i < items.len()
                invariant
                    i <= items.len(),
                    table.field(key@) == Some(Item::List(*items)),
                    texts_of(items@, i as nat) == Some(texts.deep_view()),
                decreases items.len() - i,
            {
                match &items[i] {
                    Item::Text(s) => {
                        texts.push(s.clone());
                    },
                    _ => {
                        proof {
                            lemma_texts_of_fails(items@, (i + 1) as nat, items@.len());
                        }
                        return Err(ConfigError::TypeMismatch(String::from_str(key)));
                    },
                }
                i = i + 1;
            }
            Ok(Some(texts))
        },
        Some(_) => Err(ConfigError::TypeMismatch(String::from_str(key))),
    }
}

/// Once an item is no string, no longer run of items is all strings.
pub proof fn lemma_texts_of_fails(items: Seq<Item>, short: nat, long: nat)
    requires
        short <= long,
        texts_of(items, short) is None,
    ensures
        texts_of(items, long) is None,
    decreases long,
{
    if short < long {
        lemma_texts_of_fails(items, short, (long - 1) as nat);
    }
}

/// Once a numbered color fails, every longer run fails with the same error.
pub proof fn lemma_numbered_fields_fail(table: Item, short: nat, long: nat)
    requires
        short <= long,
        numbered_fields(table, short) is Err,
    ensures
        numbered_fields(table, long) == numbered_fields(table, short),
    decreases long,
{
    if short < long {
        lemma_numbered_fields_fail(table, short, (long - 1) as nat);
    }
}

/// Reads the wallpaper settings of a document.
pub fn read_wallpaper(doc: &Item) -> (r: Result<Option<Wallpaper>, ConfigError>)
    ensures
        match r {
            Ok(Some(w)) => wallpaper_of(*doc) == Ok::<_, ConfigErrorView>(Some(w@)),
            Ok(None) => wallpaper_of(*doc) == Ok::<Option<WallpaperView>, ConfigErrorView>(None),
            Err(e) => wallpaper_of(*doc) == Err::<Option<WallpaperView>, _>(e@),
        },
{
    match doc.get("wallpaper") {
        None => Ok(None),
        Some(table) => {
            match table {
                Item::Table(_) => {},
                _ => {
                    return Err(ConfigError::TypeMismatch(String::from_str("wallpaper")));
                },
            }
            let enable = read_flag(table, "enable");
            let path = match read_text(table, "path") {
                Ok(path) => path,
                Err(e) => {
                    return Err(e);
                },
            };
            let command = match read_list(table, "command") {
                Ok(command) => command,
                Err(e) => {
                    return Err(e);
                },
            };
            Ok(Some(Wallpaper { enable, path, command }))
        },
    }
}

/// Reads the color under `key` in the `colors` table.
pub fn read_color(table: &Item, key: &str) -> (r: Result<Color, ConfigError>)
    ensures
        match r {
            Ok(c) => color_field(*table, key@) == Ok::<_, ConfigErrorView>(c),
            Err(e) => color_field(*table, key@) == Err::<Color, _>(e@),
        },
{
    match table.get(key) {
        None => Err(ConfigError::MissingField(String::from_str(key))),
        Some(Item::Text(s)) => match Color::parse(s.as_str()) {
            Ok(c) => Ok(c),
            Err(why) => Err(ConfigError::for_token(s.as_str(), why)),
        },
        Some(_) => Err(ConfigError::TypeMismatch(String::from_str(key))),
    }
}

/// Reads the palette of a `colors` table.
pub fn read_palette_table(table: &Item) -> (r: Result<Colors, ConfigError>)
    ensures
        match r {
            Ok(p) => palette_of_table(*table) == Ok::<_, ConfigErrorView>(p@),
            Err(e) => palette_of_table(*table) == Err::<ColorsView, _>(e@),
        },
{
    let background = match read_color(table, "background") {
        Ok(c) => c,
        Err(e) => {
            return Err(e);
        },
    };
    let foreground = match read_color(table, "foreground") {
        Ok(c) => c,
        Err(e) => {
            return Err(e);
        },
    };
    let cursor = match read_color(table, "cursor") {
        Ok(c) => c,
        Err(e) => {
            return Err(e);
        },
    };
    let mut colors: [Color; 16] = [background; 16];
    let mut i: u8 = 0;
    assert(colors@.take(0) =~= Seq::<Color>::empty());
    while i < 16
        invariant
            i <= 16,
            color_field(*table, "background"@) == Ok::<_, ConfigErrorView>(background),
            color_field(*table, "foreground"@) == Ok::<_, ConfigErrorView>(foreground),
            color_field(*table, "cursor"@) == Ok::<_, ConfigErrorView>(cursor),
            numbered_fields(*table, i as nat) == Ok::<_, ConfigErrorView>(colors@.take(i as int)),
        decreases 16 - i,
    {
        let name = numbered(i);
        let ghost before = colors@;
        match read_color(table, name.as_str()) {
            Ok(c) => {
                colors[i as usize] = c;
                assert(colors@.take(i + 1) =~= before.take(i as int).push(c));
            },
            Err(e) => {
                proof {
                    lemma_numbered_fields_fail(*table, (i + 1) as nat, 16);
                }
                return Err(e);
            },
        }
        i = i + 1;
    }
    assert(colors@.take(16) =~= colors@);
    Ok(Colors { background, foreground, cursor, colors })
}

/// Reads the palette of a document.
pub fn read_palette(doc: &Item) -> (r: Result<Option<Colors>, ConfigError>)
    ensures
        match r {
            Ok(Some(p)) => palette_of(*doc) == Ok::<_, ConfigErrorView>(Some(p@)),
            Ok(None) => palette_of(*doc) == Ok::<Option<ColorsView>, ConfigErrorView>(None),
            Err(e) => palette_of(*doc) == Err::<Option<ColorsView>, _>(e@),
        },
{
    match doc.get("colors") {
        None => Ok(None),
        Some(table) => {
            match table {
                Item::Table(_) => {},
                _ => {
                    return Err(ConfigError::TypeMismatch(String::from_str("colors")));
                },
            }
            match read_palette_table(table) {
                Ok(p) => Ok(Some(p)),
                Err(e) => Err(e),
            }
        },
    }
}

/// The numbered colors are read in full or not at all: where they are read,
/// there are `count` of them and each is what its key holds; where they are
/// not, the error is that of one of the keys.
pub proof fn lemma_numbered_fields_complete(table: Item, count: nat)
    ensures
        match numbered_fields(table, count) {
            Ok(colors) => colors.len() == count && forall|i: int|
                0 <= i < count ==> color_field(table, numbered_name(i as nat)) == Ok::<
                    Color,
                    ConfigErrorView,
                >(#[trigger] colors[i]),
            Err(e) => exists|i: int|
                0 <= i < count && #[trigger] color_field(table, numbered_name(i as nat)) == Err::<
                    Color,
                    ConfigErrorView,
                >(e),
        },
    decreases count,
{
    if count > 0 {
        let less = (count - 1) as nat;
        lemma_numbered_fields_complete(table, less);
        match numbered_fields(table, less) {
            Ok(colors) => {
                if let Ok(c) = color_field(table, numbered_name(less)) {
                    let all = colors.push(c);
                    assert forall|i: int| 0 <= i < count implies color_field(
                        table,
                        numbered_name(i as nat),
                    ) == Ok::<Color, ConfigErrorView>(#[trigger] all[i]) by {}
                }
            },
            Err(e) => {
                let i = choose|i: int|
                    0 <= i < less && #[trigger] color_field(table, numbered_name(i as nat))
                        == Err::<Color, ConfigErrorView>(e);
            },
        }
    }
}

/// No palette is read in part: a `colors` table gives a palette only where
/// all nineteen keys hold a color, and the palette then holds exactly these.
pub proof fn lemma_palette_complete(table: Item)
    ensures
        match palette_of_table(table) {
            Ok(p) => {
                &&& p.well_formed()
                &&& color_field(table, "background"@) == Ok::<Color, ConfigErrorView>(p.background)
                &&& color_field(table, "foreground"@) == Ok::<Color, ConfigErrorView>(p.foreground)
                &&& color_field(table, "cursor"@) == Ok::<Color, ConfigErrorView>(p.cursor)
                &&& forall|i: int|
                    0 <= i < 16 ==> color_field(table, numbered_name(i as nat)) == Ok::<
                        Color,
                        ConfigErrorView,
                    >(#[trigger] p.colors[i])
            },
            Err(e) => {
                ||| color_field(table, "background"@) == Err::<Color, ConfigErrorView>(e)
                ||| color_field(table, "foreground"@) == Err::<Color, ConfigErrorView>(e)
                ||| color_field(table, "cursor"@) == Err::<Color, ConfigErrorView>(e)
                ||| exists|i: int|
                    0 <= i < 16 && #[trigger] color_field(table, numbered_name(i as nat)) == Err::<
                        Color,
                        ConfigErrorView,
                    >(e)
            },
        },
{
    lemma_numbered_fields_complete(table, 16);
}

} // verus!
