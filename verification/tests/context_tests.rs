use themer::engine::create_context;
use themer::palette::{Base16, Base30, Palette, PaletteError};

fn create_minimal_base16() -> Base16 {
    Base16 {
        base00: "000000".to_string(),
        base01: "111111".to_string(),
        base02: "222222".to_string(),
        base03: "333333".to_string(),
        base04: "444444".to_string(),
        base05: "555555".to_string(),
        base06: "666666".to_string(),
        base07: "777777".to_string(),
        base08: "888888".to_string(),
        base09: "999999".to_string(),
        base0a: "aaaaaa".to_string(),
        base0b: "bbbbbb".to_string(),
        base0c: "cccccc".to_string(),
        base0d: "dddddd".to_string(),
        base0e: "eeeeee".to_string(),
        base0f: "ffffff".to_string(),
    }
}

fn create_minimal_base30() -> Base30 {
    Base30 {
        white: "ffffff".to_string(),
        darker_black: "000000".to_string(),
        black: "111111".to_string(),
        black2: "1a1a1a".to_string(),
        one_bg: "222222".to_string(),
        one_bg2: "2a2a2a".to_string(),
        one_bg3: "333333".to_string(),
        grey: "888888".to_string(),
        grey_fg: "999999".to_string(),
        grey_fg2: "aaaaaa".to_string(),
        light_grey: "bbbbbb".to_string(),
        red: "ff0000".to_string(),
        baby_pink: "ffaaaa".to_string(),
        pink: "ff00ff".to_string(),
        line: "444444".to_string(),
        green: "00ff00".to_string(),
        vibrant_green: "00ff88".to_string(),
        nord_blue: "5e81ac".to_string(),
        blue: "0000ff".to_string(),
        yellow: "ffff00".to_string(),
        sun: "ffaa00".to_string(),
        purple: "aa00ff".to_string(),
        dark_purple: "550088".to_string(),
        teal: "00ffff".to_string(),
        orange: "ff8800".to_string(),
        cyan: "00aaff".to_string(),
        lightbg: "eeeeee".to_string(),
    }
}

fn create_test_palette_base16_only() -> Palette {
    Palette {
        name: "test-palette".to_string(),
        base_16: Some(create_minimal_base16()),
        base_30: None,
    }
}

fn create_test_palette_full() -> Palette {
    Palette {
        name: "full-palette".to_string(),
        base_16: Some(create_minimal_base16()),
        base_30: Some(create_minimal_base30()),
    }
}

fn create_empty_palette() -> Palette {
    Palette { name: "empty".to_string(), base_16: None, base_30: None }
}

#[test]
fn test_create_context_with_base16() {
    let palette = create_test_palette_base16_only();

    let context = create_context(&palette).expect("Context creation failed");

    let name = context.get("name").expect("Name not found");
    assert_eq!(name.as_str(), Some("test-palette"));

    assert_eq!(context.get("base00").unwrap().as_str(), Some("000000"));
    assert_eq!(context.get("base01").unwrap().as_str(), Some("111111"));
    assert_eq!(context.get("base0A").unwrap().as_str(), Some("aaaaaa"));
    assert_eq!(context.get("base0F").unwrap().as_str(), Some("ffffff"));
}

#[test]
fn test_create_context_with_base30() {
    let palette = create_test_palette_full();

    let context = create_context(&palette).expect("Context creation failed");

    assert_eq!(context.get("white").unwrap().as_str(), Some("ffffff"));
    assert_eq!(context.get("red").unwrap().as_str(), Some("ff0000"));
    assert_eq!(context.get("nord_blue").unwrap().as_str(), Some("5e81ac"));
    assert_eq!(context.get("lightbg").unwrap().as_str(), Some("eeeeee"));
}

#[test]
fn test_create_context_missing_base16_returns_error() {
    let palette = create_empty_palette();

    let result = create_context(&palette);
    assert!(result.is_err());
    assert!(matches!(result.unwrap_err(), PaletteError::MissingBase16));
}

#[test]
fn test_context_lettered_keys_are_upper_case() {
    let palette = create_test_palette_base16_only();
    let context = create_context(&palette).unwrap();

    for key in ["base0A", "base0B", "base0C", "base0D", "base0E", "base0F"] {
        assert!(context.get(key).is_some(), "missing key {}", key);
    }
    for key in ["base0a", "base0b", "base0c", "base0d", "base0e", "base0f"] {
        assert!(context.get(key).is_none(), "unexpected key {}", key);
    }
}

#[test]
fn test_context_base16_only_has_exactly_seventeen_keys() {
    let palette = create_test_palette_base16_only();
    let context = create_context(&palette).unwrap();
    let json = context.into_json();
    let map = json.as_object().expect("context is a mapping");
    assert_eq!(map.len(), 17);
    assert!(map.contains_key("name"));
}

#[test]
fn test_palette_accessors() {
    let palette = create_test_palette_base16_only();
    assert!(palette.base16().is_ok());
    assert!(palette.base30().is_err());
    assert!(matches!(palette.base30().unwrap_err(), PaletteError::MissingBase30));
    assert_eq!(
        palette.base30().unwrap_err().message(),
        "Palette is missing base_30 colors"
    );
    assert_eq!(
        create_empty_palette().base16().unwrap_err().message(),
        "Palette is missing base_16 colors"
    );
}

#[test]
fn test_base16_colors_in_slot_order() {
    let b = create_minimal_base16();
    let colors = b.colors();
    assert_eq!(colors.len(), 16);
    assert_eq!(colors[0], "000000");
    assert_eq!(colors[9], "999999");
    assert_eq!(colors[10], "aaaaaa");
    assert_eq!(colors[15], "ffffff");
}
