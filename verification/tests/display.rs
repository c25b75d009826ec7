use ferrisdex::api::{Pokemon, PokemonSprites, PokemonStat};
use ferrisdex::display::build_info_lines;
use ferrisdex::terminal::pokedex_layout;

fn stat(name: &str, base_stat: i64) -> PokemonStat {
    PokemonStat { name: name.to_string(), base_stat }
}

#[test]
fn info_lines_are_laid_out() {
    let pokemon = Pokemon {
        id: 25,
        name: "pikachu".to_string(),
        abilities: vec![Some("static".to_string()), None, Some("lightning-rod".to_string())],
        stats: vec![stat("hp", 35), stat("speed", 90), stat("special-attack", 150), stat("x", 4)],
        sprites: PokemonSprites::default(),
    };
    let lines = build_info_lines(&pokemon, "Pikachu");
    let expected: Vec<String> = vec![
        "".to_string(),
        "🦀 FerrisDex".to_string(),
        "══════════════════════════".to_string(),
        "".to_string(),
        "  Name:  Pikachu".to_string(),
        "  Dex #: 25".to_string(),
        "".to_string(),
        "  ── Abilities ──".to_string(),
        "    • static".to_string(),
        "    • lightning-rod".to_string(),
        "".to_string(),
        "  ── Base Stats ──".to_string(),
        format!("    {:<20} {:>3}  {}", "hp", 35, "█".repeat(7)),
        format!("    {:<20} {:>3}  {}", "speed", 90, "█".repeat(18)),
        format!("    {:<20} {:>3}  {}", "special-attack", 150, "█".repeat(20)),
        format!("    {:<20} {:>3}  {}", "x", 4, ""),
        "".to_string(),
    ];
    assert_eq!(lines, expected);
    assert_eq!(lines[12], "    hp                    35  ███████");
}

#[test]
fn long_names_and_small_stats() {
    let pokemon = Pokemon {
        id: -1,
        name: "x".to_string(),
        abilities: vec![],
        stats: vec![stat("a-very-long-stat-name-indeed", 1234), stat("neg", -4), stat("zero", 0)],
        sprites: PokemonSprites::default(),
    };
    let lines = build_info_lines(&pokemon, "");
    assert_eq!(lines.len(), 14);
    assert_eq!(lines[4], "  Name:  ");
    assert_eq!(lines[5], "  Dex #: -1");
    assert_eq!(lines[7], "  ── Abilities ──");
    assert_eq!(lines[8], "");
    assert_eq!(lines[10], format!("    {:<20} {:>3}  {}", "a-very-long-stat-name-indeed", 1234, "█".repeat(20)));
    assert_eq!(lines[11], "    neg                   -4  ");
    assert_eq!(lines[12], "    zero                   0  ");
}

#[test]
fn layout_rows() {
    let layout = pokedex_layout(3, 4).unwrap();
    assert_eq!(layout.text_column, 42);
    assert_eq!(layout.line_rows, vec![3, 4, 5, 6]);
    assert_eq!(layout.final_row, 23);
    let layout = pokedex_layout(10, 30).unwrap();
    assert_eq!(layout.final_row, 40);
    assert_eq!(layout.line_rows[29], 39);
    assert!(pokedex_layout(65530, 2).is_none());
    assert!(pokedex_layout(65515, 0).is_some());
    assert!(pokedex_layout(65516, 0).is_none());
}
