use themer::palette::ColorError;
use themer::palette_store::{file_stem_of, is_json_filename, PaletteInfo, PaletteLoader};

#[test]
fn test_new_creates_correct_path() {
    let temp_dir = tempfile::TempDir::new().unwrap();
    let config_dir = temp_dir.path().to_str().unwrap();
    let loader = PaletteLoader::new(config_dir);
    assert_eq!(loader.palettes_dir(), format!("{}/palettes", config_dir));
}

#[test]
fn test_palette_info_display() {
    let info_with_name = PaletteInfo {
        filename: "test".to_string(),
        name: Some("Test Palette".to_string()),
    };
    assert_eq!(info_with_name.display_string(), "Test Palette (test)");

    let info_without_name = PaletteInfo { filename: "invalid".to_string(), name: None };
    assert_eq!(info_without_name.display_string(), "invalid (invalid)");
}

#[test]
fn test_palette_file_name_suffix() {
    assert_eq!(PaletteLoader::palette_file_name("nord"), "nord.json");
    assert_eq!(PaletteLoader::palette_file_name("nord.json"), "nord.json");
}

#[test]
fn test_palette_path() {
    let loader = PaletteLoader::new("/cfg/themer");
    assert_eq!(loader.palette_path("nord"), "/cfg/themer/palettes/nord.json");
    assert_eq!(loader.palette_path("another.json"), "/cfg/themer/palettes/another.json");
}

#[test]
fn test_is_json_filename() {
    assert!(is_json_filename("test.json"));
    assert!(!is_json_filename("not_json.txt"));
    assert!(!is_json_filename("no_extension"));
    assert!(!is_json_filename(".json"));
}

#[test]
fn test_file_stem() {
    assert_eq!(file_stem_of("test.json"), "test");
    assert_eq!(file_stem_of("a.b.json"), "a.b");
    assert_eq!(file_stem_of("noext"), "noext");
    assert_eq!(file_stem_of(".hidden"), ".hidden");
}

#[test]
fn test_color_error_message() {
    let err = ColorError::InvalidFormat("zzz".to_string());
    assert_eq!(err.message(), "Invalid hex color format: zzz");
}
