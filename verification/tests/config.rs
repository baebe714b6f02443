use colstract::config::{compose_config, join_path, Config, Overrides};
use colstract::error::ConfigError;
use colstract::structures::color::Color;
use colstract::structures::colors::Colors;
use colstract::structures::wallpaper::Wallpaper;
use colstract::utils::detect_string_type;

const TABLE_DOCUMENT: &str = r##"input = "/home/user/.Xresources"
    output_directory = "/home/user/.cache/colstract"
    
    [wallpaper]
    enable = true
    path = "/home/user/Pictures/wall.png"
    command = ["feh", "--bg-fill", "/home/user/Pictures/wall.png"]
    
    [colors]
    color0 = "#242837"
    color1 = "#f14360"
    color2 = "#aecc00"
    color3 = "#ff9d35"
    color4 = "#75b0ff"
    color5 = "#c651e5"
    color6 = "#4ce7ff"
    color7 = "#fbe1a3"
    color8 = "#7e818b"
    color9 = "#ff89b5"
    color10 = "#b8cc66"
    color11 = "#ffc380"
    color12 = "#bfd9ff"
    color13 = "#d2a1e6"
    color14 = "#99f5ff"
    color15 = "#e3d8be"
    background = "#1c1f2b"
    foreground = "#cac0a9"
    cursor = "#cac0a9"
    "##;

const RESOURCE_DUMP: &str = r#"! special
    *.foreground:   #cac0a9
    *.background:   #1c1f2b
    *.cursorColor:  #cac0a9
    
    ! black
    *.color0:       #242837
    *.color8:       #7e818b
    
    ! red
    *.color1:       #f14360
    *.color9:       #ff89b5
    
    ! green
    *.color2:       #aecc00
    *.color10:      #b8cc66
    
    ! yellow
    *.color3:       #ff9d35
    *.color11:      #ffc380
    
    ! blue
    *.color4:       #75b0ff
    *.color12:      #bfd9ff
    
    ! magenta
    *.color5:       #c651e5
    *.color13:      #d2a1e6
    
    ! cyan
    *.color6:       #4ce7ff
    *.color14:      #99f5ff
    
    ! white
    *.color7:       #fbe1a3
    *.color15:      #e3d8be

    *.colors16:     #fabeca
    "#;

fn hex(token: &str) -> Color {
    Color::parse(token).unwrap()
}

fn sample_palette() -> Colors {
    Colors {
        background: hex("#1c1f2b"),
        foreground: hex("#cac0a9"),
        cursor: hex("#cac0a9"),
        colors: [
            hex("#242837"),
            hex("#f14360"),
            hex("#aecc00"),
            hex("#ff9d35"),
            hex("#75b0ff"),
            hex("#c651e5"),
            hex("#4ce7ff"),
            hex("#fbe1a3"),
            hex("#7e818b"),
            hex("#ff89b5"),
            hex("#b8cc66"),
            hex("#ffc380"),
            hex("#bfd9ff"),
            hex("#d2a1e6"),
            hex("#99f5ff"),
            hex("#e3d8be"),
        ],
    }
}

fn value_of<'a>(context: &'a [(String, String)], key: &str) -> &'a str {
    let found: Vec<&(String, String)> = context.iter().filter(|e| e.0 == key).collect();
    assert_eq!(found.len(), 1, "key {}", key);
    found[0].1.as_str()
}

#[test]
fn test_conf() {
    let string = r##"input = "/home/user/.Xresources"
    output_directory = "/home/user/.cache/colstract"
    
    [wallpaper]
    enable = true
    path = "/home/user/Pictures/wall.png"
    command = ["feh", "--bg-fill", "/home/user/Pictures/wall.png"]
    
    [colors]
    color0 = "#242837"
    color1 = "#f14360"
    color2 = "#aecc00"
    color3 = "#ff9d35"
    color4 = "#75b0ff"
    color5 = "#c651e5"
    color6 = "#4ce7ff"
    color7 = "#fbe1a3"
    color8 = "#7e818b"
    color9 = "#ff89b5"
    color10 = "#b8cc66"
    color11 = "#ffc380"
    color12 = "#bfd9ff"
    color13 = "#d2a1e6"
    color14 = "#99f5ff"
    color15 = "#e3d8be"
    background = "#1c1f2b"
    foreground = "#cac0a9"
    cursor = "#cac0a9"
    "##;
    let conf = Config::from_text(string).unwrap();
    println!("{:?}", conf);

    let string = r#"! special
    *.foreground:   #cac0a9
    *.background:   #1c1f2b
    *.cursorColor:  #cac0a9
    
    ! black
    *.color0:       #242837
    *.color8:       #7e818b
    
    ! red
    *.color1:       #f14360
    *.color9:       #ff89b5
    
    ! green
    *.color2:       #aecc00
    *.color10:      #b8cc66
    
    ! yellow
    *.color3:       #ff9d35
    *.color11:      #ffc380
    
    ! blue
    *.color4:       #75b0ff
    *.color12:      #bfd9ff
    
    ! magenta
    *.color5:       #c651e5
    *.color13:      #d2a1e6
    
    ! cyan
    *.color6:       #4ce7ff
    *.color14:      #99f5ff
    
    ! white
    *.color7:       #fbe1a3
    *.color15:      #e3d8be

    *.colors16:     #fabeca
    "#;
    let conf = Config::from_text(string).unwrap();
    println!("{:?}", conf);
}

#[test]
fn json_test() {
    let string = r##"input = "/home/user/.Xresources"
    output_directory = "/home/user/.cache/colstract"
    
    [wallpaper]
    enable = true
    path = "/home/user/Pictures/wall.png"
    command = ["feh", "--bg-fill", "/home/user/Pictures/wall.png"]
    
    [colors]
    color0 = "#242837"
    color1 = "#f14360"
    color2 = "#aecc00"
    color3 = "#ff9d35"
    color4 = "#75b0ff"
    color5 = "#c651e5"
    color6 = "#4ce7ff"
    color7 = "#fbe1a3"
    color8 = "#7e818b"
    color9 = "#ff89b5"
    color10 = "#b8cc66"
    color11 = "#ffc380"
    color12 = "#bfd9ff"
    color13 = "#d2a1e6"
    color14 = "#99f5ff"
    color15 = "#e3d8be"
    background = "#1c1f2b"
    foreground = "#cac0a9"
    cursor = "#cac0a9"
    "##;
    let conf = Config::from_text(string).unwrap();
    let jason = conf.to_json();
    assert!(serde_json::from_str::<serde_json::Value>(&jason).is_ok());
}

#[test]
fn table_document_is_read_in_full() {
    let conf = Config::from_toml_str(TABLE_DOCUMENT).unwrap();
    assert_eq!(conf.input.as_deref(), Some("/home/user/.Xresources"));
    assert_eq!(conf.output_directory.as_deref(), Some("/home/user/.cache/colstract"));
    assert_eq!(
        conf.wallpaper,
        Some(Wallpaper {
            enable: Some(true),
            path: Some("/home/user/Pictures/wall.png".to_string()),
            command: Some(vec![
                "feh".to_string(),
                "--bg-fill".to_string(),
                "/home/user/Pictures/wall.png".to_string(),
            ]),
        })
    );
    assert_eq!(conf.colors, Some(sample_palette()));
    assert_eq!(Config::from_text(TABLE_DOCUMENT), Ok(conf));
}

#[test]
fn resource_dump_is_read_in_full() {
    let conf = Config::from_xresource_str(RESOURCE_DUMP);
    assert_eq!(conf.input, None);
    assert_eq!(conf.output_directory, None);
    assert_eq!(conf.wallpaper, None);
    assert_eq!(conf.colors, Some(sample_palette()));
    assert_eq!(Config::from_text(RESOURCE_DUMP), Ok(conf));
}

#[test]
fn projected_map_of_the_table_document() {
    let conf = Config::from_text(TABLE_DOCUMENT).unwrap();
    let context = conf.render_context();
    assert_eq!(value_of(&context, "background"), "#1c1f2b");
    assert_eq!(value_of(&context, "color0"), "#242837");
    assert_eq!(value_of(&context, "color15"), "#e3d8be");
    assert_eq!(value_of(&context, "background_rgb"), "28,31,43");
    let channels: Vec<u8> =
        value_of(&context, "background_rgb").split(',').map(|d| d.parse().unwrap()).collect();
    assert_eq!(channels, vec![28, 31, 43]);
    assert_eq!(value_of(&context, "background_rgba"), "28,31,43,255");
    assert_eq!(value_of(&context, "background_hex8"), "#1c1f2bff");
    assert_eq!(value_of(&context, "background_xrgba"), "#ff1c1f2b");
    assert_eq!(value_of(&context, "background_alpha"), "1");
    assert_eq!(value_of(&context, "background_hex_stripped"), "1c1f2b");
    assert_eq!(value_of(&context, "background_hex8_stripped"), "1c1f2bff");
    assert_eq!(value_of(&context, "background_rgb_stripped"), "28,31,43");
    assert_eq!(value_of(&context, "background_rgba_stripped"), "28,31,43,255");
    assert_eq!(value_of(&context, "foreground"), "#cac0a9");
    assert_eq!(value_of(&context, "cursor"), "#cac0a9");
    assert_eq!(value_of(&context, "color10_hex_stripped"), "b8cc66");
    assert_eq!(value_of(&context, "alpha"), "1");
    assert_eq!(value_of(&context, "alpha_percentage"), "100");
    assert_eq!(value_of(&context, "wallpaper"), "/home/user/Pictures/wall.png");
}

#[test]
fn projected_map_has_a_fixed_key_set() {
    let mut expected: Vec<String> = vec!["alpha".to_string(), "alpha_percentage".to_string()];
    let mut slots: Vec<String> =
        vec!["background".to_string(), "foreground".to_string(), "cursor".to_string()];
    for i in 0..16 {
        slots.push(format!("color{}", i));
    }
    for slot in &slots {
        expected.push(slot.clone());
        for suffix in [
            "rgb",
            "rgba",
            "hex8",
            "xrgba",
            "alpha",
            "hex_stripped",
            "hex8_stripped",
            "rgb_stripped",
            "rgba_stripped",
        ] {
            expected.push(format!("{}_{}", slot, suffix));
        }
    }
    expected.push("wallpaper".to_string());
    assert_eq!(expected.len(), 193);

    let with_colors = Config::from_text(TABLE_DOCUMENT).unwrap().render_context();
    let keys: Vec<String> = with_colors.iter().map(|e| e.0.clone()).collect();
    assert_eq!(keys, expected);

    let without = Config::empty().render_context();
    let keys: Vec<String> = without.iter().map(|e| e.0.clone()).collect();
    assert_eq!(keys, expected);
}

#[test]
fn projected_map_without_palette_uses_the_default_color() {
    let context = Config::empty().render_context();
    assert_eq!(value_of(&context, "background"), "#000000");
    assert_eq!(value_of(&context, "color7_rgba"), "0,0,0,255");
    assert_eq!(value_of(&context, "cursor_hex8"), "#000000ff");
    assert_eq!(value_of(&context, "alpha"), "1");
    assert_eq!(value_of(&context, "alpha_percentage"), "100");
    assert_eq!(value_of(&context, "wallpaper"), "");
    let same = Config { colors: Some(Colors::default()), ..Config::empty() };
    assert_eq!(same.render_context(), context);
}

#[test]
fn projected_map_follows_the_background_alpha() {
    let mut palette = sample_palette();
    palette.background = hex("#1c1f2b80");
    let conf = Config { colors: Some(palette), ..Config::empty() };
    let context = conf.render_context();
    assert_eq!(value_of(&context, "alpha"), "0.5019608");
    assert_eq!(value_of(&context, "alpha_percentage"), "50");
    assert_eq!(value_of(&context, "background_alpha"), "0.5019608");
    assert_eq!(value_of(&context, "foreground_alpha"), "1");
    assert_eq!(value_of(&context, "background_xrgba"), "#801c1f2b");
}

#[test]
fn wallpaper_path_changes_the_wallpaper_key_only() {
    let a = Config::from_text(TABLE_DOCUMENT).unwrap();
    let mut b = a.clone();
    b.wallpaper.as_mut().unwrap().set_path("/elsewhere/other.png");
    let left = a.render_context();
    let right = b.render_context();
    assert_eq!(left.len(), right.len());
    for (l, r) in left.iter().zip(right.iter()) {
        assert_eq!(l.0, r.0);
        if l.0 == "wallpaper" {
            assert_eq!(l.1, "/home/user/Pictures/wall.png");
            assert_eq!(r.1, "/elsewhere/other.png");
        } else {
            assert_eq!(l.1, r.1);
        }
    }
}

#[test]
fn json_is_the_projected_map() {
    let conf = Config::from_text(TABLE_DOCUMENT).unwrap();
    let parsed: serde_json::Value = serde_json::from_str(&conf.to_json()).unwrap();
    let object = parsed.as_object().unwrap();
    let context = conf.render_context();
    assert_eq!(object.len(), context.len());
    for (key, value) in &context {
        assert_eq!(object.get(key).and_then(|v| v.as_str()), Some(value.as_str()));
    }
    assert!(conf.to_json().starts_with("{\n\t\"alpha\": \"1\",\n\t\"alpha_percentage\": \"100\",\n"));
    assert!(conf.to_json().ends_with(",\n\t\"wallpaper\": \"/home/user/Pictures/wall.png\"\n}"));
}

#[test]
fn json_escapes_what_a_path_may_hold() {
    let path = "C:\\walls\\\"best\"\n\tone\u{1}.png";
    let conf = Config {
        wallpaper: Some(Wallpaper { enable: None, path: Some(path.to_string()), command: None }),
        ..Config::empty()
    };
    let json = conf.to_json();
    assert!(json.ends_with("\"wallpaper\": \"C:\\\\walls\\\\\\\"best\\\"\\u000a\\u0009one\\u0001.png\"\n}"));
    let parsed: serde_json::Value = serde_json::from_str(&json).unwrap();
    assert_eq!(parsed.get("wallpaper").and_then(|v| v.as_str()), Some(path));
    let path = "/home/zoé/壁紙/\u{1f600}.png";
    let conf = Config {
        wallpaper: Some(Wallpaper { enable: None, path: Some(path.to_string()), command: None }),
        ..Config::empty()
    };
    let parsed: serde_json::Value = serde_json::from_str(&conf.to_json()).unwrap();
    assert_eq!(parsed.get("wallpaper").and_then(|v| v.as_str()), Some(path));
}

#[test]
fn detector_tells_the_kinds_apart() {
    assert_eq!(detect_string_type(TABLE_DOCUMENT), 0);
    assert_eq!(detect_string_type(RESOURCE_DUMP), 1);
    assert_eq!(detect_string_type("*.cursorColor: #cac0a9"), 1);
    assert_eq!(detect_string_type("! a comment\n*.cursorColor: #cac0a9\n"), 1);
    assert_eq!(detect_string_type("neither = = this\nnor that"), 9);
    assert_eq!(detect_string_type("*.background: #cac0a9"), 9);
    assert_eq!(detect_string_type(""), 0);
    assert_eq!(detect_string_type("cursorColor = \"#cac0a9\""), 0);
}

#[test]
fn detector_looks_at_one_line_at_a_time() {
    assert_eq!(detect_string_type("*.cursorColor:\n#cac0a9"), 9);
    assert_eq!(detect_string_type("*.cursorColor: #ca"), 9);
    assert_eq!(detect_string_type("*.cursorColor: #cac"), 1);
}

#[test]
fn unrecognized_text_falls_back() {
    let text = "neither = = this\nnor that";
    assert_eq!(detect_string_type(text), 9);
    assert_eq!(Config::from_text(text), Err(ConfigError::UnrecognizedFormat));
    assert_eq!(Config::from_toml_str(text), Err(ConfigError::UnrecognizedFormat));
    let defaults = Config::with_home("/home/user");
    assert_eq!(Config::from_text_or(text, defaults.clone()), defaults);
    assert_eq!(
        Config::from_text_or(RESOURCE_DUMP, defaults),
        Config::from_xresource_str(RESOURCE_DUMP)
    );
}

#[test]
fn missing_color_is_named() {
    let text = TABLE_DOCUMENT.replace("color15 = \"#e3d8be\"", "");
    assert_eq!(Config::from_toml_str(&text), Err(ConfigError::MissingField("color15".to_string())));
    assert_eq!(Config::from_text(&text), Err(ConfigError::MissingField("color15".to_string())));
    let text = TABLE_DOCUMENT.replace("background = \"#1c1f2b\"", "");
    assert_eq!(
        Config::from_toml_str(&text),
        Err(ConfigError::MissingField("background".to_string()))
    );
    let text = "[colors]\n";
    assert_eq!(
        Config::from_toml_str(text),
        Err(ConfigError::MissingField("background".to_string()))
    );
}

#[test]
fn wrong_shapes_are_named() {
    assert_eq!(
        Config::from_toml_str("input = 3"),
        Err(ConfigError::TypeMismatch("input".to_string()))
    );
    assert_eq!(
        Config::from_toml_str("output_directory = [\"a\"]"),
        Err(ConfigError::TypeMismatch("output_directory".to_string()))
    );
    assert_eq!(
        Config::from_toml_str("wallpaper = \"wall.png\""),
        Err(ConfigError::TypeMismatch("wallpaper".to_string()))
    );
    assert_eq!(
        Config::from_toml_str("[wallpaper]\npath = true"),
        Err(ConfigError::TypeMismatch("path".to_string()))
    );
    assert_eq!(
        Config::from_toml_str("[wallpaper]\ncommand = \"feh\""),
        Err(ConfigError::TypeMismatch("command".to_string()))
    );
    assert_eq!(
        Config::from_toml_str("[wallpaper]\ncommand = [\"feh\", 1]"),
        Err(ConfigError::TypeMismatch("command".to_string()))
    );
    assert_eq!(
        Config::from_toml_str("colors = 1.5"),
        Err(ConfigError::TypeMismatch("colors".to_string()))
    );
    let text = TABLE_DOCUMENT.replace("color3 = \"#ff9d35\"", "color3 = 3");
    assert_eq!(Config::from_toml_str(&text), Err(ConfigError::TypeMismatch("color3".to_string())));
}

#[test]
fn bad_color_tokens_are_named() {
    let text = TABLE_DOCUMENT.replace("#ff9d35", "#ff9d3");
    assert_eq!(
        Config::from_toml_str(&text),
        Err(ConfigError::InvalidHexLength("#ff9d3".to_string()))
    );
    let text = TABLE_DOCUMENT.replace("#ff9d35", "#ff9d3z");
    assert_eq!(
        Config::from_toml_str(&text),
        Err(ConfigError::InvalidHexDigit("#ff9d3z".to_string()))
    );
}

#[test]
fn the_first_failure_is_reported() {
    let text = "input = 1\noutput_directory = 2\n[colors]\n";
    assert_eq!(Config::from_toml_str(text), Err(ConfigError::TypeMismatch("input".to_string())));
    let text = TABLE_DOCUMENT
        .replace("cursor = \"#cac0a9\"", "")
        .replace("color0 = \"#242837\"", "color0 = 0");
    assert_eq!(Config::from_toml_str(&text), Err(ConfigError::MissingField("cursor".to_string())));
}

#[test]
fn optional_parts_may_be_absent() {
    assert_eq!(Config::from_toml_str(""), Ok(Config::empty()));
    let conf = Config::from_toml_str("[wallpaper]\nenable = \"yes\"\n").unwrap();
    assert_eq!(conf.wallpaper, Some(Wallpaper { enable: None, path: None, command: None }));
    let conf = Config::from_toml_str("[wallpaper]\nenable = false\ncommand = []\n").unwrap();
    assert_eq!(
        conf.wallpaper,
        Some(Wallpaper { enable: Some(false), path: None, command: Some(vec![]) })
    );
    let conf = Config::from_toml_str("input = \"in\"\nunknown = 7\n").unwrap();
    assert_eq!(conf, Config { input: Some("in".to_string()), ..Config::empty() });
}

#[test]
fn shorthand_and_alpha_in_a_table_document() {
    let text = TABLE_DOCUMENT.replace("#1c1f2b", "#abcd").replace("#242837", "fff");
    let conf = Config::from_toml_str(&text).unwrap();
    let palette = conf.colors.unwrap();
    assert_eq!(palette.background, Color { r: 0xaa, g: 0xbb, b: 0xcc, a: 0xdd });
    assert_eq!(palette.colors[0], Color { r: 255, g: 255, b: 255, a: 255 });
}

#[test]
fn messages_name_the_key_or_token() {
    assert_eq!(ConfigError::UnrecognizedFormat.message(), "unrecognized document format");
    assert_eq!(
        ConfigError::MissingField("color15".to_string()).message(),
        "missing field: color15"
    );
    assert_eq!(
        ConfigError::TypeMismatch("command".to_string()).message(),
        "wrong type for field: command"
    );
    assert_eq!(
        ConfigError::InvalidHexLength("#12".to_string()).message(),
        "invalid hex length: #12"
    );
    assert_eq!(
        ConfigError::InvalidHexDigit("#12z".to_string()).message(),
        "invalid hex digit: #12z"
    );
}

#[test]
fn defaults_lie_under_the_home_directory() {
    let conf = Config::with_home("/home/user");
    assert_eq!(conf.input.as_deref(), Some("/home/user/.Xresources"));
    assert_eq!(conf.output_directory.as_deref(), Some("/home/user/.cache/colstract"));
    assert_eq!(conf.colors, None);
    assert_eq!(conf.wallpaper, None);
    let conf = Config::with_home("/");
    assert_eq!(conf.input.as_deref(), Some("/.Xresources"));
    assert_eq!(conf.output_directory.as_deref(), Some("/.cache/colstract"));
    assert_eq!(join_path("", "leaf"), "leaf");
    assert_eq!(join_path("a/", "leaf"), "a/leaf");
    assert_eq!(join_path("a", "leaf"), "a/leaf");
    for base in ["", "/", "/home/user", "/home/user/", "rel"] {
        let expected = std::path::PathBuf::from(base).join("leaf");
        assert_eq!(join_path(base, "leaf"), expected.to_str().unwrap());
    }
}

fn no_overrides() -> Overrides {
    Overrides { input: None, output: None, wallpaper: None, wallpaper_command: None }
}

#[test]
fn overrides_take_precedence() {
    let conf = Config::from_text(TABLE_DOCUMENT).unwrap();
    assert_eq!(compose_config(no_overrides(), conf.clone()), conf);

    let composed = compose_config(
        Overrides { input: Some("/other/input".to_string()), ..no_overrides() },
        conf.clone(),
    );
    assert_eq!(composed.input.as_deref(), Some("/other/input"));
    assert_eq!(composed.colors, None);
    assert_eq!(composed.output_directory, conf.output_directory);
    assert_eq!(composed.wallpaper, conf.wallpaper);

    let composed = compose_config(
        Overrides { output: Some("/out".to_string()), ..no_overrides() },
        conf.clone(),
    );
    assert_eq!(composed.output_directory.as_deref(), Some("/out"));
    assert_eq!(composed.colors, conf.colors);

    let composed = compose_config(
        Overrides {
            wallpaper: Some("/w.png".to_string()),
            wallpaper_command: Some(vec!["swaybg".to_string()]),
            ..no_overrides()
        },
        conf.clone(),
    );
    assert_eq!(
        composed.wallpaper,
        Some(Wallpaper {
            enable: Some(true),
            path: Some("/w.png".to_string()),
            command: Some(vec!["swaybg".to_string()]),
        })
    );
}

#[test]
fn overrides_make_wallpaper_settings_where_there_were_none() {
    let composed = compose_config(
        Overrides { wallpaper: Some("/w.png".to_string()), ..no_overrides() },
        Config::empty(),
    );
    assert_eq!(
        composed.wallpaper,
        Some(Wallpaper { enable: Some(true), path: Some("/w.png".to_string()), command: None })
    );
    let composed = compose_config(
        Overrides { wallpaper_command: Some(vec!["feh".to_string()]), ..no_overrides() },
        Config::empty(),
    );
    assert_eq!(
        composed.wallpaper,
        Some(Wallpaper { enable: Some(false), path: None, command: Some(vec!["feh".to_string()]) })
    );
    let composed = compose_config(
        Overrides {
            wallpaper: Some("/w.png".to_string()),
            wallpaper_command: Some(vec!["feh".to_string()]),
            ..no_overrides()
        },
        Config::empty(),
    );
    assert_eq!(
        composed.wallpaper,
        Some(Wallpaper {
            enable: Some(true),
            path: Some("/w.png".to_string()),
            command: Some(vec!["feh".to_string()]),
        })
    );
}

#[test]
fn palette_is_adopted_from_the_input_text() {
    let conf = Config::with_home("/home/user");
    assert_eq!(conf.pending_input(), Some("/home/user/.Xresources"));
    let resolved = conf.clone().adopt_colors(RESOURCE_DUMP).unwrap();
    assert_eq!(resolved.colors, Some(sample_palette()));
    assert_eq!(resolved.input, conf.input);
    assert_eq!(resolved.output_directory, conf.output_directory);
    assert_eq!(resolved.pending_input(), None);
    let mut other = Colors::default();
    other.cursor = hex("#123456");
    let own = Config { colors: Some(other), ..conf.clone() };
    assert_eq!(own.clone().adopt_colors(RESOURCE_DUMP), Ok(own));
    assert_eq!(conf.adopt_colors("? ?"), Err(ConfigError::UnrecognizedFormat));
    assert_eq!(Config::empty().pending_input(), None);
}

#[test]
fn wallpaper_setters() {
    let mut w = Wallpaper::default();
    assert_eq!(w, Wallpaper { enable: None, path: None, command: None });
    assert_eq!(w.planned_command(), None);
    w.set_path("/w.png");
    w.set_command(vec!["feh".to_string(), "/w.png".to_string()]);
    assert_eq!(w.planned_command(), None);
    w.set_status(false);
    assert_eq!(w.planned_command(), None);
    w.set_status(true);
    assert_eq!(w.planned_command(), Some(&vec!["feh".to_string(), "/w.png".to_string()]));
    assert_eq!(w.path.as_deref(), Some("/w.png"));
    w.set_command(vec![]);
    assert_eq!(w.planned_command(), None);
}

#[test]
fn context_renders_in_a_template() {
    let conf = Config::from_text(TABLE_DOCUMENT).unwrap();
    let mut data = serde_json::Map::new();
    for (key, value) in conf.render_context() {
        data.insert(key, serde_json::Value::String(value));
    }
    let engine = handlebars::Handlebars::new();
    let rendered = engine
        .render_template(
            "bg={{background}} fg={{foreground_rgb}} c9={{color9_hex_stripped}} a={{alpha}} w={{wallpaper}}",
            &data,
        )
        .unwrap();
    assert_eq!(
        rendered,
        "bg=#1c1f2b fg=202,192,169 c9=ff89b5 a=1 w=/home/user/Pictures/wall.png"
    );
    let from_json: serde_json::Value = serde_json::from_str(&conf.to_json()).unwrap();
    let again = engine.render_template("{{cursor_xrgba}}|{{color15_rgba}}", &from_json).unwrap();
    assert_eq!(again, "#ffcac0a9|227,216,190,255");
}
