use ferrisdex::cli::{cache_enabled, parse_args, parse_generation, parse_sprite_source, resolve_sprite_request, CliOptions};
use ferrisdex::config::{AppConfig, SpriteGender, SpriteSource};

fn args_of(items: &[&str]) -> Vec<String> {
    items.iter().map(|s| s.to_string()).collect()
}

#[test]
fn parses_cache_and_shiny() {
    let args = vec![
        "ferrisdex".to_string(),
        "pikachu".to_string(),
        "--cache".to_string(),
        "shiny".to_string(),
    ];

    let parsed = parse_args(args).expect("args should parse");
    assert_eq!(parsed.pokemon_name, "pikachu");
    assert!(parsed.shiny);
    assert!(parsed.cache_enabled);
    assert_eq!(parsed.sprite_source, None);
    assert_eq!(parsed.sprite_gender, None);
}

#[test]
fn parses_sprite_source_equals_syntax() {
    let args = vec![
        "ferrisdex".to_string(),
        "pikachu".to_string(),
        "--sprite-source=showdown".to_string(),
    ];

    let parsed = parse_args(args).expect("args should parse");
    assert_eq!(parsed.pokemon_name, "pikachu");
    assert_eq!(parsed.sprite_source, Some(SpriteSource::Showdown));
}

#[test]
fn parses_generation_and_gender() {
    let args = vec![
        "ferrisdex".to_string(),
        "pikachu".to_string(),
        "-g".to_string(),
        "ix".to_string(),
        "--female".to_string(),
        "--animated".to_string(),
    ];

    let parsed = parse_args(args).expect("args should parse");
    assert_eq!(parsed.sprite_generation.as_deref(), Some("generation-ix"));
    assert_eq!(parsed.sprite_gender, Some(SpriteGender::Female));
    assert_eq!(parsed.sprite_animated, Some(true));
}

#[test]
fn rejects_removed_gender_and_static_flags() {
    let args = vec![
        "ferrisdex".to_string(),
        "pikachu".to_string(),
        "--gender".to_string(),
        "female".to_string(),
    ];
    let err = parse_args(args).expect_err("args should fail");
    assert!(err.contains("Unknown flag '--gender'"));

    let args = vec![
        "ferrisdex".to_string(),
        "pikachu".to_string(),
        "--static".to_string(),
    ];
    let err = parse_args(args).expect_err("args should fail");
    assert!(err.contains("Unknown flag '--static'"));
}

#[test]
fn gender_flags_last_wins() {
    let args = vec![
        "ferrisdex".to_string(),
        "pikachu".to_string(),
        "--female".to_string(),
        "--male".to_string(),
    ];
    let parsed = parse_args(args).expect("args should parse");
    assert_eq!(parsed.sprite_gender, Some(SpriteGender::Default));

    let args = vec![
        "ferrisdex".to_string(),
        "pikachu".to_string(),
        "--male".to_string(),
        "--female".to_string(),
    ];
    let parsed = parse_args(args).expect("args should parse");
    assert_eq!(parsed.sprite_gender, Some(SpriteGender::Female));
}

#[test]
fn repeated_generation_flags_last_wins() {
    let args = vec![
        "ferrisdex".to_string(),
        "pikachu".to_string(),
        "-g".to_string(),
        "i".to_string(),
        "-g".to_string(),
        "ii".to_string(),
    ];

    let parsed = parse_args(args).expect("args should parse");
    assert_eq!(parsed.sprite_generation.as_deref(), Some("generation-ii"));
}

#[test]
fn rejects_invalid_sprite_source() {
    let args = vec![
        "ferrisdex".to_string(),
        "pikachu".to_string(),
        "--sprite-source=nope".to_string(),
    ];

    let err = parse_args(args).expect_err("args should fail");
    assert!(err.contains("Unknown sprite source"));
}

#[test]
fn rejects_unknown_flag() {
    let args = vec!["ferrisdex".to_string(), "--bad".to_string()];
    let err = parse_args(args).expect_err("args should fail");
    assert!(err.contains("Unknown flag"));
}

#[test]
fn allows_shiny_as_pokemon_name() {
    let args = vec!["ferrisdex".to_string(), "shiny".to_string()];
    let parsed = parse_args(args).expect("args should parse");
    assert_eq!(parsed.pokemon_name, "shiny");
    assert!(!parsed.shiny);
}

// ---------------------------------------------------------------------------

const USAGE_TAIL: &str = " <pokemon_name_or_id> [shiny] [-c|--cache] [-s|--sprite-source <sprites|home|official_artwork|showdown|dream_world>] [--female|--male] [-g|--generation <i..ix|generation-i..generation-ix>] [--version-group <group>] [--animated]";

fn usage_for(bin: &str) -> String {
    format!("Usage: {}{}", bin, USAGE_TAIL)
}

#[test]
fn usage_names_every_option() {
    assert_eq!(CliOptions::usage("ferrisdex"), usage_for("ferrisdex"));
    assert_eq!(CliOptions::usage("dex"), usage_for("dex"));
}

#[test]
fn missing_pokemon_name_gives_usage() {
    assert_eq!(parse_args(args_of(&["fd"])).unwrap_err(), usage_for("fd"));
    assert_eq!(parse_args(args_of(&["fd", "--cache"])).unwrap_err(), usage_for("fd"));
}

#[test]
fn empty_argument_list_uses_default_program_name() {
    assert_eq!(parse_args(Vec::new()).unwrap_err(), usage_for("ferrisdex"));
}

#[test]
fn unknown_flag_message_is_exact() {
    let err = parse_args(args_of(&["fd", "pikachu", "-x"])).unwrap_err();
    assert_eq!(err, format!("Unknown flag '-x'.\n{}", usage_for("fd")));
}

#[test]
fn second_name_is_unexpected() {
    let err = parse_args(args_of(&["fd", "pikachu", "raichu"])).unwrap_err();
    assert_eq!(err, format!("Unexpected argument 'raichu'.\n{}", usage_for("fd")));
}

#[test]
fn option_without_value_is_rejected() {
    for flag in ["-s", "--sprite-source", "-g", "--generation", "--version-group"] {
        let err = parse_args(args_of(&["fd", "pikachu", flag])).unwrap_err();
        assert_eq!(err, format!("Missing value for a sprite option.\n{}", usage_for("fd")));
    }
}

#[test]
fn empty_version_group_is_rejected() {
    let expected = format!("Missing value for --version-group.\n{}", usage_for("fd"));
    assert_eq!(parse_args(args_of(&["fd", "pikachu", "--version-group", ""])).unwrap_err(), expected);
    assert_eq!(parse_args(args_of(&["fd", "pikachu", "--version-group="])).unwrap_err(), expected);
}

#[test]
fn version_group_value_is_kept_as_given() {
    let parsed = parse_args(args_of(&["fd", "pikachu", "--version-group", "Black-White"])).unwrap();
    assert_eq!(parsed.sprite_version_group.as_deref(), Some("Black-White"));
    let parsed = parse_args(args_of(&["fd", "pikachu", "--version-group=x-y"])).unwrap();
    assert_eq!(parsed.sprite_version_group.as_deref(), Some("x-y"));
}

#[test]
fn option_value_may_look_like_a_flag() {
    let parsed = parse_args(args_of(&["fd", "pikachu", "--version-group", "--female"])).unwrap();
    assert_eq!(parsed.sprite_version_group.as_deref(), Some("--female"));
    assert_eq!(parsed.sprite_gender, None);
}

#[test]
fn short_flags_and_all_options() {
    let parsed = parse_args(args_of(&[
        "fd", "25", "shiny", "-c", "-s", "home", "--generation=Generation-IV", "--animated",
    ]))
    .unwrap();
    assert_eq!(parsed.pokemon_name, "25");
    assert!(parsed.shiny);
    assert!(parsed.cache_enabled);
    assert_eq!(parsed.sprite_source, Some(SpriteSource::Home));
    assert_eq!(parsed.sprite_generation.as_deref(), Some("generation-iv"));
    assert_eq!(parsed.sprite_animated, Some(true));
    assert_eq!(parsed.sprite_version_group, None);
}

#[test]
fn shiny_before_name_is_the_name() {
    let parsed = parse_args(args_of(&["fd", "shiny", "shiny"])).unwrap();
    assert_eq!(parsed.pokemon_name, "shiny");
    assert!(parsed.shiny);
}

#[test]
fn sprite_source_errors_are_exact() {
    let err = parse_sprite_source("nope", "fd").unwrap_err();
    assert_eq!(
        err,
        format!(
            "Unknown sprite source 'nope'. Expected one of: sprites|home|official_artwork|showdown|dream_world.\n{}",
            usage_for("fd")
        )
    );
    assert_eq!(parse_sprite_source("dream-world", "fd"), Ok(SpriteSource::DreamWorld));
}

#[test]
fn generation_values() {
    assert_eq!(parse_generation("V", "fd").unwrap(), "generation-v");
    assert_eq!(parse_generation("generation-viii", "fd").unwrap(), "generation-viii");
    assert_eq!(parse_generation("GENERATION-III", "fd").unwrap(), "generation-iii");
    let err = parse_generation("x", "fd").unwrap_err();
    assert_eq!(
        err,
        format!(
            "Unknown generation 'x'. Expected one of i..ix or generation-i..generation-ix.\n{}",
            usage_for("fd")
        )
    );
    assert!(parse_generation("generation-", "fd").is_err());
    assert!(parse_generation("", "fd").is_err());
}

#[test]
fn canonical_generation_reads_as_itself() {
    for value in ["i", "II", "generation-ix", "Generation-Vi"] {
        let g = parse_generation(value, "fd").unwrap();
        assert_eq!(parse_generation(&g, "other").unwrap(), g);
    }
}

#[test]
fn last_gender_flag_decides_whatever_came_before() {
    let parsed = parse_args(args_of(&["fd", "--male", "pikachu", "-c", "--female"])).unwrap();
    assert_eq!(parsed.sprite_gender, Some(SpriteGender::Female));
    assert!(parsed.cache_enabled);
}

#[test]
fn command_line_overrides_configuration() {
    let config = AppConfig {
        cache_enabled: false,
        sprite_source: Some(SpriteSource::Home),
        sprite_gender: Some(SpriteGender::Female),
        sprite_generation: Some("generation-v".to_string()),
        sprite_version_group: Some("black-white".to_string()),
        sprite_animated: Some(true),
    };
    let cli = parse_args(args_of(&[
        "fd", "pikachu", "-s", "showdown", "--male", "-g", "ii", "--version-group", "crystal",
    ]))
    .unwrap();
    let request = resolve_sprite_request(&cli, &config);
    assert_eq!(request.source, SpriteSource::Showdown);
    assert_eq!(request.gender, SpriteGender::Default);
    assert_eq!(request.generation.as_deref(), Some("generation-ii"));
    assert_eq!(request.version_group.as_deref(), Some("crystal"));
    assert!(request.animated);
    assert!(!request.shiny);
    assert!(!cache_enabled(&cli, &config));

    let cli = parse_args(args_of(&["fd", "pikachu", "shiny", "--cache"])).unwrap();
    let request = resolve_sprite_request(&cli, &config);
    assert_eq!(request.source, SpriteSource::Home);
    assert_eq!(request.gender, SpriteGender::Female);
    assert_eq!(request.generation.as_deref(), Some("generation-v"));
    assert!(request.shiny);
    assert!(cache_enabled(&cli, &config));
}

#[test]
fn defaults_apply_without_configuration() {
    let cli = parse_args(args_of(&["fd", "pikachu"])).unwrap();
    let request = resolve_sprite_request(&cli, &AppConfig::default());
    assert_eq!(request.source, SpriteSource::OfficialArtwork);
    assert_eq!(request.gender, SpriteGender::Default);
    assert_eq!(request.generation, None);
    assert_eq!(request.version_group, None);
    assert!(!request.animated);
    assert!(!cache_enabled(&cli, &AppConfig::default()));
}

#[test]
fn option_values_may_follow_or_be_joined() {
    let pairs: [(&[&str], &[&str]); 5] = [
        (&["fd", "pikachu", "-s", "home", "--male"], &["fd", "pikachu", "--sprite-source=home", "--male"]),
        (&["fd", "pikachu", "--sprite-source", "nope"], &["fd", "pikachu", "--sprite-source=nope"]),
        (&["fd", "-g", "IV", "pikachu"], &["fd", "--generation=IV", "pikachu"]),
        (&["fd", "pikachu", "--generation", "x"], &["fd", "pikachu", "--generation=x"]),
        (&["fd", "pikachu", "--version-group", ""], &["fd", "pikachu", "--version-group="]),
    ];
    for (separate, joined) in pairs {
        let a = parse_args(args_of(separate));
        let b = parse_args(args_of(joined));
        match (a, b) {
            (Ok(a), Ok(b)) => {
                assert_eq!(a.pokemon_name, b.pokemon_name);
                assert_eq!(a.sprite_source, b.sprite_source);
                assert_eq!(a.sprite_gender, b.sprite_gender);
                assert_eq!(a.sprite_generation, b.sprite_generation);
                assert_eq!(a.sprite_version_group, b.sprite_version_group);
            }
            (Err(a), Err(b)) => assert_eq!(a, b),
            _ => panic!("forms disagree for {:?}", separate),
        }
    }
}
