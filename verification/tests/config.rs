use ferrisdex::config::{config_from_raw, AppConfig, CacheField, RawConfig, SpriteGender, SpriteSource};

#[test]
fn sprite_source_names() {
    assert_eq!(SpriteSource::parse("sprites"), Some(SpriteSource::Sprites));
    assert_eq!(SpriteSource::parse("home"), Some(SpriteSource::Home));
    assert_eq!(SpriteSource::parse("official_artwork"), Some(SpriteSource::OfficialArtwork));
    assert_eq!(SpriteSource::parse("official-artwork"), Some(SpriteSource::OfficialArtwork));
    assert_eq!(SpriteSource::parse("showdown"), Some(SpriteSource::Showdown));
    assert_eq!(SpriteSource::parse("dream_world"), Some(SpriteSource::DreamWorld));
    assert_eq!(SpriteSource::parse("dream-world"), Some(SpriteSource::DreamWorld));
    assert_eq!(SpriteSource::parse("Home"), None);
    assert_eq!(SpriteSource::parse(""), None);
}

#[test]
fn every_listed_variant_parses() {
    let names: Vec<&str> = SpriteSource::variants().split('|').collect();
    assert_eq!(names.len(), 5);
    for name in names {
        assert!(SpriteSource::parse(name).is_some(), "{}", name);
    }
}

#[test]
fn defaults() {
    assert_eq!(SpriteSource::default(), SpriteSource::OfficialArtwork);
    assert_eq!(SpriteGender::default(), SpriteGender::Default);
    assert!(SpriteGender::Female.is_female());
    assert!(!SpriteGender::Default.is_female());
    let config = AppConfig::default();
    assert!(!config.cache_enabled);
    assert_eq!(config.sprite_source, None);
}

#[test]
fn default_sprite_request_fills_defaults() {
    let request = AppConfig::default().default_sprite_request(true);
    assert_eq!(request.source, SpriteSource::OfficialArtwork);
    assert!(request.shiny);
    assert_eq!(request.gender, SpriteGender::Default);
    assert_eq!(request.generation, None);
    assert_eq!(request.version_group, None);
    assert!(!request.animated);
}

#[test]
fn default_sprite_request_carries_configuration() {
    let config = AppConfig {
        cache_enabled: true,
        sprite_source: Some(SpriteSource::Sprites),
        sprite_gender: Some(SpriteGender::Female),
        sprite_generation: Some("generation-v".to_string()),
        sprite_version_group: Some("black-white".to_string()),
        sprite_animated: Some(true),
    };
    let request = config.default_sprite_request(false);
    assert_eq!(request.source, SpriteSource::Sprites);
    assert!(!request.shiny);
    assert_eq!(request.gender, SpriteGender::Female);
    assert_eq!(request.generation.as_deref(), Some("generation-v"));
    assert_eq!(request.version_group.as_deref(), Some("black-white"));
    assert!(request.animated);
}

#[test]
fn cache_key_forms() {
    let mut raw = RawConfig::default();
    assert!(!config_from_raw(raw.clone()).cache_enabled);
    raw.cache = Some(CacheField::Enabled(true));
    assert!(config_from_raw(raw.clone()).cache_enabled);
    raw.cache = Some(CacheField::Section { enabled: true });
    assert!(config_from_raw(raw.clone()).cache_enabled);
    raw.cache = Some(CacheField::Section { enabled: false });
    assert!(!config_from_raw(raw.clone()).cache_enabled);
    raw.cache = Some(CacheField::Enabled(false));
    assert!(!config_from_raw(raw).cache_enabled);
}

#[test]
fn sprite_keys_are_carried_over() {
    let raw = RawConfig {
        cache: None,
        sprite_source: Some(SpriteSource::Home),
        sprite_gender: Some(SpriteGender::Female),
        sprite_generation: Some("generation-v".to_string()),
        sprite_version_group: Some("black-white".to_string()),
        sprite_animated: Some(true),
    };
    let config = config_from_raw(raw);
    assert!(!config.cache_enabled);
    assert_eq!(config.sprite_source, Some(SpriteSource::Home));
    assert_eq!(config.sprite_gender, Some(SpriteGender::Female));
    assert_eq!(config.sprite_generation.as_deref(), Some("generation-v"));
    assert_eq!(config.sprite_version_group.as_deref(), Some("black-white"));
    assert_eq!(config.sprite_animated, Some(true));
}
