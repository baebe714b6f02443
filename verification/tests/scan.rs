use colstract::config::Config;
use colstract::document::Item;
use colstract::error::ConfigError;
use colstract::pattern::group;
use colstract::scan::{apply_line, read_index, scan, set_named, set_numbered, LineOutcome, Slot};
use colstract::structures::color::Color;
use colstract::structures::colors::{numbered, Colors};
use colstract::text::{same_text, split_lines};

fn hex(token: &str) -> Color {
    Color::parse(token).unwrap()
}

#[test]
fn lines_are_what_stands_between_line_breaks() {
    assert_eq!(split_lines(""), vec![""]);
    assert_eq!(split_lines("a"), vec!["a"]);
    assert_eq!(split_lines("a\n"), vec!["a", ""]);
    assert_eq!(split_lines("\na\n\nb"), vec!["", "a", "", "b"]);
    for text in ["", "\n", "one\ntwo\r\nthree\n", "é\nü", "\n\n\n"] {
        let expected: Vec<&str> = text.split('\n').collect();
        assert_eq!(split_lines(text), expected);
        assert_eq!(split_lines(text).join("\n"), text);
    }
}

#[test]
fn small_text_helpers() {
    assert_eq!(numbered(0), "color0");
    assert_eq!(numbered(9), "color9");
    assert_eq!(numbered(10), "color10");
    assert_eq!(numbered(15), "color15");
    assert_eq!(numbered(255), "color255");
    assert!(same_text("color1", "color1"));
    assert!(!same_text("color1", "color10"));
}

#[test]
fn cursor_line_makes_a_resource_dump() {
    assert_eq!(colstract::utils::detect_string_type("*.cursorColor: #cac0a9"), 1);
    let conf = Config::from_text("*.cursorColor: #cac0a9").unwrap();
    let palette = conf.colors.unwrap();
    assert_eq!(palette.cursor, hex("#cac0a9"));
    assert_eq!(palette.background, Color::default());
}

#[test]
fn last_line_for_a_slot_counts() {
    let palette = scan("*.background: #111111\n*.background: #222222\n");
    assert_eq!(palette.background, hex("#222222"));
    let palette = scan("*.color3: #111111\nURxvt.color3: #333333\n*.color03: #444444");
    assert_eq!(palette.colors[3], hex("#444444"));
    let conf = Config::from_xresource_str("*.background: #111111\n*.background: #222222\n");
    assert_eq!(conf.colors.unwrap().background, hex("#222222"));
}

#[test]
fn unset_slots_keep_the_default_color() {
    let palette = scan("*.color4: #75b0ff");
    let mut expected = Colors::default();
    expected.colors[4] = hex("#75b0ff");
    assert_eq!(palette, expected);
    assert_eq!(scan(""), Colors::default());
    assert_eq!(scan("! only a comment\nXft.dpi: 96\n"), Colors::default());
}

#[test]
fn numbers_above_fifteen_are_passed_over() {
    let text = "*.color15: #e3d8be\n*.color16: #fabeca\n*.color99: #fabeca\n";
    let mut expected = Colors::default();
    expected.colors[15] = hex("#e3d8be");
    assert_eq!(scan(text), expected);

    let mut palette = expected;
    assert_eq!(apply_line(&mut palette, "*.color16: #fabeca"), LineOutcome::IndexOutOfRange);
    assert_eq!(palette, expected);
    assert_eq!(
        set_numbered(&mut palette, Some("16"), Some("#fabeca")),
        LineOutcome::IndexOutOfRange
    );
    assert_eq!(set_numbered(&mut palette, Some("99"), Some("#fabeca")), LineOutcome::IndexOutOfRange);
    assert_eq!(palette, expected);
}

#[test]
fn first_pattern_that_matches_counts() {
    let mut palette = Colors::default();
    // the line fits the background and the numbered pattern: background comes first
    assert_eq!(
        apply_line(&mut palette, "*.color2: #aaaaaa *.background: #bbbbbb"),
        LineOutcome::Applied
    );
    let mut expected = Colors::default();
    expected.background = hex("#bbbbbb");
    assert_eq!(palette, expected);
}

#[test]
fn lines_and_their_outcomes() {
    let mut palette = Colors::default();
    assert_eq!(apply_line(&mut palette, "*.foreground:   #cac0a9"), LineOutcome::Applied);
    assert_eq!(apply_line(&mut palette, "*.cursorColor:#CAC0A980"), LineOutcome::Applied);
    assert_eq!(apply_line(&mut palette, "*.color7: #fbe"), LineOutcome::Applied);
    assert_eq!(apply_line(&mut palette, "! comment"), LineOutcome::Unmatched);
    assert_eq!(apply_line(&mut palette, "*.background: black"), LineOutcome::Unmatched);
    assert_eq!(apply_line(&mut palette, "*.background: #12"), LineOutcome::Unmatched);
    assert_eq!(apply_line(&mut palette, "*.background: #12345"), LineOutcome::InvalidToken);
    assert_eq!(apply_line(&mut palette, "*.color1: #1234567"), LineOutcome::InvalidToken);
    assert_eq!(apply_line(&mut palette, "*.colors16: #fabeca"), LineOutcome::Unmatched);
    let mut expected = Colors::default();
    expected.foreground = hex("#cac0a9");
    expected.cursor = hex("#cac0a980");
    expected.colors[7] = hex("#ffbbee");
    assert_eq!(palette, expected);
}

#[test]
fn captured_values_set_slots() {
    let mut palette = Colors::default();
    assert_eq!(set_named(&mut palette, Slot::Background, Some("#010203")), LineOutcome::Applied);
    assert_eq!(set_named(&mut palette, Slot::Foreground, Some("#040506")), LineOutcome::Applied);
    assert_eq!(set_named(&mut palette, Slot::Cursor, Some("#07080910")), LineOutcome::Applied);
    assert_eq!(set_named(&mut palette, Slot::Cursor, Some("#0708091")), LineOutcome::InvalidToken);
    assert_eq!(set_named(&mut palette, Slot::Cursor, Some("#07080g")), LineOutcome::InvalidToken);
    assert_eq!(set_named(&mut palette, Slot::Cursor, None), LineOutcome::InvalidToken);
    assert_eq!(set_numbered(&mut palette, Some("0"), Some("#a0a0a0")), LineOutcome::Applied);
    assert_eq!(set_numbered(&mut palette, Some("09"), Some("#a9a9a9")), LineOutcome::Applied);
    assert_eq!(set_numbered(&mut palette, Some("15"), Some("#afafaf")), LineOutcome::Applied);
    assert_eq!(set_numbered(&mut palette, Some("1"), Some("nothing")), LineOutcome::InvalidToken);
    assert_eq!(set_numbered(&mut palette, Some("x"), Some("#a0a0a0")), LineOutcome::IndexOutOfRange);
    assert_eq!(set_numbered(&mut palette, Some(""), Some("#a0a0a0")), LineOutcome::IndexOutOfRange);
    assert_eq!(set_numbered(&mut palette, Some("001"), Some("#a0a0a0")), LineOutcome::IndexOutOfRange);
    assert_eq!(set_numbered(&mut palette, None, Some("#a0a0a0")), LineOutcome::IndexOutOfRange);
    let mut expected = Colors::default();
    expected.background = hex("#010203");
    expected.foreground = hex("#040506");
    expected.cursor = hex("#07080910");
    expected.colors[0] = hex("#a0a0a0");
    expected.colors[9] = hex("#a9a9a9");
    expected.colors[15] = hex("#afafaf");
    assert_eq!(palette, expected);
}

#[test]
fn index_digits() {
    assert_eq!(read_index(Some("0")), Some(0));
    assert_eq!(read_index(Some("7")), Some(7));
    assert_eq!(read_index(Some("07")), Some(7));
    assert_eq!(read_index(Some("15")), Some(15));
    assert_eq!(read_index(Some("16")), None);
    assert_eq!(read_index(Some("1a")), None);
    assert_eq!(read_index(Some("")), None);
    assert_eq!(read_index(None), None);
}

#[test]
fn groups_by_position() {
    let groups = vec![Some("whole".to_string()), None, Some("#fff".to_string())];
    assert_eq!(group(&groups, 0), Some("whole"));
    assert_eq!(group(&groups, 1), None);
    assert_eq!(group(&groups, 2), Some("#fff"));
    assert_eq!(group(&groups, 3), None);
}

fn text(s: &str) -> Item {
    Item::Text(s.to_string())
}

fn table(entries: Vec<(&str, Item)>) -> Item {
    Item::Table(entries.into_iter().map(|(k, v)| (k.to_string(), v)).collect())
}

fn color_entries() -> Vec<(&'static str, Item)> {
    vec![
        ("background", text("#1c1f2b")),
        ("color0", text("#000000")),
        ("color1", text("#010101")),
        ("color10", text("#0a0a0a")),
        ("color11", text("#0b0b0b")),
        ("color12", text("#0c0c0c")),
        ("color13", text("#0d0d0d")),
        ("color14", text("#0e0e0e")),
        ("color15", text("#0f0f0f")),
        ("color2", text("#020202")),
        ("color3", text("#030303")),
        ("color4", text("#040404")),
        ("color5", text("#050505")),
        ("color6", text("#060606")),
        ("color7", text("#070707")),
        ("color8", text("#080808")),
        ("color9", text("#090909")),
        ("cursor", text("#cac0a9")),
        ("foreground", text("#cac0a9")),
    ]
}

#[test]
fn document_tree_is_read_as_a_configuration() {
    let doc = table(vec![
        ("colors", table(color_entries())),
        ("input", text("in")),
        (
            "wallpaper",
            table(vec![
                ("command", Item::List(vec![text("feh"), text("x")])),
                ("enable", Item::Flag(true)),
                ("extra", Item::Other),
            ]),
        ),
    ]);
    let conf = Config::from_document(&doc).unwrap();
    assert_eq!(conf.input.as_deref(), Some("in"));
    assert_eq!(conf.output_directory, None);
    let wallpaper = conf.wallpaper.unwrap();
    assert_eq!(wallpaper.enable, Some(true));
    assert_eq!(wallpaper.path, None);
    assert_eq!(wallpaper.command, Some(vec!["feh".to_string(), "x".to_string()]));
    let palette = conf.colors.unwrap();
    assert_eq!(palette.background, hex("#1c1f2b"));
    for i in 0..16u8 {
        assert_eq!(palette.colors[i as usize], Color { r: i, g: i, b: i, a: 255 });
    }
    assert_eq!(doc.get("input"), Some(&text("in")));
    assert_eq!(doc.get("output_directory"), None);
    assert_eq!(text("in").get("input"), None);
}

#[test]
fn document_tree_failures() {
    let mut entries = color_entries();
    entries.retain(|e| e.0 != "color15");
    let doc = table(vec![("colors", table(entries))]);
    assert_eq!(Config::from_document(&doc), Err(ConfigError::MissingField("color15".to_string())));

    let mut entries = color_entries();
    entries[3] = ("color10", Item::Flag(true));
    let doc = table(vec![("colors", table(entries))]);
    assert_eq!(Config::from_document(&doc), Err(ConfigError::TypeMismatch("color10".to_string())));

    let doc = table(vec![("colors", Item::List(vec![]))]);
    assert_eq!(Config::from_document(&doc), Err(ConfigError::TypeMismatch("colors".to_string())));

    let doc = table(vec![("wallpaper", table(vec![("command", Item::List(vec![Item::Other]))]))]);
    assert_eq!(Config::from_document(&doc), Err(ConfigError::TypeMismatch("command".to_string())));

    assert_eq!(Config::from_document(&Item::Other), Ok(Config::empty()));
    assert_eq!(Config::from_document(&table(vec![])), Ok(Config::empty()));
}
