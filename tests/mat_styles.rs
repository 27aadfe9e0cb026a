use api_codegen::common::{Client, Interval, MatStyle, RotationSettings, AlbumID, PhotoID, THREE_MINS};

#[test]
fn test_mat_style_from_preset_classic() {
    let style = MatStyle::from_preset("classic");
    assert_eq!(style.name, "classic");
    assert_eq!(style.background_color, "#f5f2eb");
    assert_eq!(style.padding, "4vmin");
    assert!(style.shadow.is_none());
    assert!(style.inner_border.is_none());
}

#[test]
fn test_mat_style_from_preset_modern_has_shadow() {
    let style = MatStyle::from_preset("modern");
    assert_eq!(style.name, "modern");
    assert_eq!(style.background_color, "#ffffff");
    assert_eq!(style.padding, "3vmin");
    assert!(style.shadow.is_some());
    assert!(style.shadow.unwrap().contains("rgba"));
}

#[test]
fn test_mat_style_from_preset_gallery() {
    let style = MatStyle::from_preset("gallery");
    assert_eq!(style.name, "gallery");
    assert_eq!(style.background_color, "#2c2c2c");
    assert_eq!(style.padding, "5vmin");
    assert!(style.shadow.is_none());
}

#[test]
fn test_mat_style_from_preset_minimal() {
    let style = MatStyle::from_preset("minimal");
    assert_eq!(style.name, "minimal");
    assert_eq!(style.background_color, "#f8f8f8");
    assert_eq!(style.padding, "2vmin");
}

#[test]
fn test_mat_style_from_preset_rich_has_inset_shadow() {
    let style = MatStyle::from_preset("rich");
    assert_eq!(style.name, "rich");
    assert_eq!(style.background_color, "#3a2a1a");
    assert!(style.shadow.is_some());
    assert!(style.shadow.unwrap().contains("inset"));
}

#[test]
fn test_mat_style_from_preset_none() {
    let style = MatStyle::from_preset("none");
    assert_eq!(style.name, "none");
    assert_eq!(style.background_color, "transparent");
    assert_eq!(style.padding, "0");
    assert!(style.shadow.is_none());
}

#[test]
fn test_mat_style_unknown_defaults_to_classic() {
    let style = MatStyle::from_preset("unknown_preset");
    assert_eq!(style.name, "classic");
    assert_eq!(style.background_color, "#f5f2eb");
}

#[test]
fn test_mat_style_empty_string_defaults_to_classic() {
    let style = MatStyle::from_preset("");
    assert_eq!(style.name, "classic");
}

#[test]
fn test_preset_names_contains_all_presets() {
    let names = MatStyle::preset_names();
    assert!(names.contains(&"classic"));
    assert!(names.contains(&"modern"));
    assert!(names.contains(&"gallery"));
    assert!(names.contains(&"minimal"));
    assert!(names.contains(&"rich"));
    assert!(names.contains(&"none"));
}

#[test]
fn test_preset_names_count() {
    assert_eq!(MatStyle::preset_names().len(), 6);
}

#[test]
fn test_all_preset_names_produce_matching_styles() {
    for name in MatStyle::preset_names() {
        let style = MatStyle::from_preset(name);
        assert_eq!(style.name, *name, "Preset '{}' should produce style with matching name", name);
    }
}

#[test]
fn mat_style_preset_names_are_case_sensitive() {
    let style = MatStyle::from_preset("Modern");
    assert_eq!(style.name, "classic");
}

#[test]
fn interval_defaults_to_three_minutes() {
    assert_eq!(Interval::default().seconds(), 180);
    assert_eq!(THREE_MINS, 180);
    assert_eq!(Interval::from_seconds(60).seconds(), 60);
    assert_eq!(Interval::from(30).seconds(), 30);
    assert_eq!(Interval::from(-1).seconds(), u32::MAX);
}

#[test]
fn rotation_settings_default_has_no_album() {
    let settings = RotationSettings::default();
    assert!(settings.current_album.is_none());
    assert_eq!(settings.interval.seconds(), 180);
}

#[test]
fn ids_convert_from_integers() {
    assert_eq!(AlbumID::from(7), AlbumID(7));
    assert_eq!(PhotoID::from(9).0, 9);
}

#[test]
fn client_build_url_trims_trailing_slashes() {
    let client = Client::new("http://localhost:3000//");
    assert_eq!(client.build_url("/api/photos"), "http://localhost:3000/api/photos");
    let client = Client::new("http://localhost:3000");
    assert_eq!(client.build_url("/api/next"), "http://localhost:3000/api/next");
    let client = Client::new("");
    assert_eq!(client.build_url("/x"), "/x");
}
