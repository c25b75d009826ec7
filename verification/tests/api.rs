use ferrisdex::api::{
    check_sprite_response, default_version_group, derived_official_artwork_shiny_url,
    english_name, fallback_sources, generation_sprite_url, get_sprite,
    normalize_generation_variant, pokemon_query, showdown_url, sprite_from_source, sprite_pair,
    LocalizedName, Pokemon, PokemonQuery, PokemonSprites,
};
use ferrisdex::config::{SpriteGender, SpriteRequest, SpriteSource};

const ARTWORK: &str =
    "https://raw.githubusercontent.com/PokeAPI/sprites/master/sprites/pokemon/other/official-artwork/25.png";
const SHINY_ARTWORK: &str =
    "https://raw.githubusercontent.com/PokeAPI/sprites/master/sprites/pokemon/other/official-artwork/shiny/25.png";

fn s(v: &str) -> Option<String> {
    Some(v.to_string())
}

fn pikachu(sprites: PokemonSprites) -> Pokemon {
    Pokemon { id: 25, name: "pikachu".to_string(), abilities: vec![], stats: vec![], sprites }
}

fn request(source: SpriteSource, shiny: bool, gender: SpriteGender) -> SpriteRequest {
    SpriteRequest { source, shiny, gender, generation: None, version_group: None, animated: false }
}

#[test]
fn sprite_pair_prefers_most_specific() {
    let d = s("d");
    let sh = s("s");
    let f = s("f");
    let sf = s("sf");
    let none: Option<String> = None;
    assert_eq!(sprite_pair(&d, &sh, &f, &sf, true, true), s("sf"));
    assert_eq!(sprite_pair(&d, &sh, &f, &none, true, true), s("f"));
    assert_eq!(sprite_pair(&d, &sh, &none, &none, true, true), s("s"));
    assert_eq!(sprite_pair(&d, &none, &none, &none, true, true), s("d"));
    assert_eq!(sprite_pair(&d, &sh, &f, &sf, false, true), s("f"));
    assert_eq!(sprite_pair(&d, &sh, &none, &sf, false, true), s("d"));
    assert_eq!(sprite_pair(&d, &sh, &f, &sf, true, false), s("s"));
    assert_eq!(sprite_pair(&d, &none, &f, &sf, true, false), s("d"));
    assert_eq!(sprite_pair(&d, &sh, &f, &sf, false, false), s("d"));
    assert_eq!(sprite_pair(&none, &sh, &f, &sf, false, false), None);
}

#[test]
fn shiny_artwork_is_derived_from_default() {
    assert_eq!(derived_official_artwork_shiny_url(&s(ARTWORK)), s(SHINY_ARTWORK));
    assert_eq!(derived_official_artwork_shiny_url(&s("https://example.com/25.png")), None);
    assert_eq!(derived_official_artwork_shiny_url(&None), None);
    assert_eq!(
        derived_official_artwork_shiny_url(&s("/other/official-artwork//other/official-artwork/")),
        s("/other/official-artwork/shiny//other/official-artwork/shiny/")
    );
}

#[test]
fn showdown_urls() {
    let base = "https://raw.githubusercontent.com/PokeAPI/sprites/master/sprites/pokemon/other/showdown";
    assert_eq!(showdown_url(25, false, false), format!("{}/25.gif", base));
    assert_eq!(showdown_url(25, true, true), format!("{}/shiny/female/25.gif", base));
    assert_eq!(showdown_url(7, false, true), format!("{}/female/7.gif", base));
    assert_eq!(showdown_url(-12, true, false), format!("{}/shiny/-12.gif", base));
    assert_eq!(showdown_url(i64::MIN, false, false), format!("{}/{}.gif", base, i64::MIN));
}

#[test]
fn default_version_groups() {
    assert_eq!(default_version_group("generation-i"), "red-blue");
    assert_eq!(default_version_group("generation-ii"), "crystal");
    assert_eq!(default_version_group("generation-iii"), "emerald");
    assert_eq!(default_version_group("generation-iv"), "diamond-pearl");
    assert_eq!(default_version_group("generation-v"), "black-white");
    assert_eq!(default_version_group("generation-vi"), "x-y");
    assert_eq!(default_version_group("generation-vii"), "ultra-sun-ultra-moon");
    assert_eq!(default_version_group("generation-viii"), "icons");
    assert_eq!(default_version_group("generation-ix"), "scarlet-violet");
    assert_eq!(default_version_group("generation-x"), "red-blue");
}

#[test]
fn variants_are_kept_only_where_supported() {
    assert_eq!(normalize_generation_variant("generation-i", "red-blue", true, true, true), (false, false, false));
    assert_eq!(normalize_generation_variant("generation-ii", "crystal", true, true, true), (true, false, true));
    assert_eq!(normalize_generation_variant("generation-ii", "gold", true, true, true), (true, false, false));
    assert_eq!(normalize_generation_variant("generation-v", "black-white", true, true, true), (true, true, true));
    assert_eq!(normalize_generation_variant("generation-ix", "scarlet-violet", true, true, false), (false, true, false));
    assert_eq!(normalize_generation_variant("generation-iv", "platinum", false, false, false), (false, false, false));
}

#[test]
fn generation_urls() {
    let base = "https://raw.githubusercontent.com/PokeAPI/sprites/master/sprites/pokemon/versions";
    assert_eq!(
        generation_sprite_url(25, "generation-v", None, true, true, true),
        format!("{}/generation-v/black-white/animated/shiny/female/25.gif", base)
    );
    assert_eq!(
        generation_sprite_url(25, "generation-iv", Some("platinum"), true, false, true),
        format!("{}/generation-iv/platinum/shiny/25.png", base)
    );
    assert_eq!(
        generation_sprite_url(1, "generation-i", None, true, true, false),
        format!("{}/generation-i/red-blue/1.png", base)
    );
}

#[test]
fn fallback_order() {
    assert_eq!(
        fallback_sources(SpriteSource::OfficialArtwork),
        vec![
            SpriteSource::OfficialArtwork,
            SpriteSource::Sprites,
            SpriteSource::DreamWorld,
            SpriteSource::Home,
            SpriteSource::Showdown
        ]
    );
    assert_eq!(
        fallback_sources(SpriteSource::Home),
        vec![
            SpriteSource::Home,
            SpriteSource::OfficialArtwork,
            SpriteSource::Sprites,
            SpriteSource::DreamWorld,
            SpriteSource::Showdown
        ]
    );
    assert_eq!(
        fallback_sources(SpriteSource::Showdown),
        vec![
            SpriteSource::Showdown,
            SpriteSource::OfficialArtwork,
            SpriteSource::Sprites,
            SpriteSource::DreamWorld,
            SpriteSource::Home
        ]
    );
}

#[test]
fn sources_read_their_own_urls() {
    let sprites = PokemonSprites {
        front_default: s("fd"),
        front_female: s("ff"),
        official_artwork_front_default: s(ARTWORK),
        dream_world_front_default: s("dwd"),
        dream_world_front_female: s("dwf"),
        home_front_default: s("hd"),
        home_front_shiny: s("hs"),
        ..PokemonSprites::default()
    };
    let p = pikachu(sprites);
    let female = request(SpriteSource::Sprites, true, SpriteGender::Female);
    assert_eq!(sprite_from_source(&p, &female, SpriteSource::Sprites), s("ff"));
    assert_eq!(sprite_from_source(&p, &female, SpriteSource::DreamWorld), s("dwf"));
    assert_eq!(sprite_from_source(&p, &female, SpriteSource::Home), s("hs"));
    assert_eq!(sprite_from_source(&p, &female, SpriteSource::OfficialArtwork), s(SHINY_ARTWORK));
    let male = request(SpriteSource::Sprites, false, SpriteGender::Default);
    assert_eq!(sprite_from_source(&p, &male, SpriteSource::DreamWorld), s("dwd"));
    assert_eq!(sprite_from_source(&p, &male, SpriteSource::OfficialArtwork), s(ARTWORK));
}

#[test]
fn shiny_artwork_falls_back_to_default() {
    let p = pikachu(PokemonSprites {
        official_artwork_front_default: s("https://example.com/a.png"),
        ..PokemonSprites::default()
    });
    let r = request(SpriteSource::OfficialArtwork, true, SpriteGender::Default);
    assert_eq!(sprite_from_source(&p, &r, SpriteSource::OfficialArtwork), s("https://example.com/a.png"));
}

#[test]
fn preferred_source_first_then_fallback() {
    let p = pikachu(PokemonSprites {
        front_default: s("fd"),
        official_artwork_front_default: s(ARTWORK),
        ..PokemonSprites::default()
    });
    let r = request(SpriteSource::Sprites, false, SpriteGender::Default);
    assert_eq!(get_sprite(&p, &r), s("fd"));
    let r = request(SpriteSource::Home, false, SpriteGender::Default);
    assert_eq!(get_sprite(&p, &r), s(ARTWORK));
}

#[test]
fn showdown_is_the_last_resort() {
    let p = pikachu(PokemonSprites::default());
    let r = request(SpriteSource::DreamWorld, true, SpriteGender::Female);
    assert_eq!(
        get_sprite(&p, &r),
        s("https://raw.githubusercontent.com/PokeAPI/sprites/master/sprites/pokemon/other/showdown/shiny/female/25.gif")
    );
}

#[test]
fn generation_bypasses_sources() {
    let p = pikachu(PokemonSprites { front_default: s("fd"), ..PokemonSprites::default() });
    let mut r = request(SpriteSource::Sprites, false, SpriteGender::Default);
    r.generation = Some("generation-ii".to_string());
    r.animated = true;
    assert_eq!(
        get_sprite(&p, &r),
        s("https://raw.githubusercontent.com/PokeAPI/sprites/master/sprites/pokemon/versions/generation-ii/crystal/animated/25.gif")
    );
    r.version_group = Some("gold".to_string());
    assert_eq!(
        get_sprite(&p, &r),
        s("https://raw.githubusercontent.com/PokeAPI/sprites/master/sprites/pokemon/versions/generation-ii/gold/25.png")
    );
}

#[test]
fn queries_by_number_or_name() {
    assert_eq!(pokemon_query("25"), PokemonQuery::Id(25));
    assert_eq!(pokemon_query("+7"), PokemonQuery::Id(7));
    assert_eq!(pokemon_query("-3"), PokemonQuery::Id(-3));
    assert_eq!(pokemon_query("007"), PokemonQuery::Id(7));
    assert_eq!(pokemon_query("9223372036854775807"), PokemonQuery::Id(i64::MAX));
    assert_eq!(pokemon_query("-9223372036854775808"), PokemonQuery::Id(i64::MIN));
    assert_eq!(pokemon_query("9223372036854775808"), PokemonQuery::Name("9223372036854775808".to_string()));
    assert_eq!(pokemon_query("99999999999999999999999"), PokemonQuery::Name("99999999999999999999999".to_string()));
    assert_eq!(pokemon_query("pikachu"), PokemonQuery::Name("pikachu".to_string()));
    assert_eq!(pokemon_query("-"), PokemonQuery::Name("-".to_string()));
    assert_eq!(pokemon_query("+"), PokemonQuery::Name("+".to_string()));
    assert_eq!(pokemon_query(""), PokemonQuery::Name("".to_string()));
    assert_eq!(pokemon_query("2a"), PokemonQuery::Name("2a".to_string()));
    assert_eq!(pokemon_query(" 25"), PokemonQuery::Name(" 25".to_string()));
    for text in ["0", "-0", "+12", "123456789", "-1", "abc", "1_000", "٣"] {
        let expected = match text.parse::<i64>() {
            Ok(id) => PokemonQuery::Id(id),
            Err(_) => PokemonQuery::Name(text.to_string()),
        };
        assert_eq!(pokemon_query(text), expected, "{}", text);
    }
}

#[test]
fn english_name_is_the_first_in_english() {
    let names = vec![
        LocalizedName { language: "ja".to_string(), name: "ピカチュウ".to_string() },
        LocalizedName { language: "en".to_string(), name: "Pikachu".to_string() },
        LocalizedName { language: "en".to_string(), name: "Other".to_string() },
    ];
    assert_eq!(english_name(&names), s("Pikachu"));
    assert_eq!(english_name(&names[..1].to_vec()), None);
    assert_eq!(english_name(&Vec::new()), None);
}

#[test]
fn sprite_response_checks() {
    assert_eq!(check_sprite_response("u", 200, "200 OK", Some("image/png")), Ok(()));
    assert_eq!(check_sprite_response("u", 299, "299 <unknown status code>", Some("image/gif")), Ok(()));
    assert_eq!(
        check_sprite_response("u", 404, "404 Not Found", Some("text/html")),
        Err("Failed to download sprite 'u': HTTP 404 Not Found (content-type: text/html)".to_string())
    );
    assert_eq!(
        check_sprite_response("u", 500, "500 Internal Server Error", None),
        Err("Failed to download sprite 'u': HTTP 500 Internal Server Error (content-type: <unknown>)".to_string())
    );
    assert_eq!(
        check_sprite_response("u", 200, "200 OK", Some("text/html")),
        Err("Failed to download sprite 'u': expected image content, got 'text/html'".to_string())
    );
    assert_eq!(
        check_sprite_response("u", 200, "200 OK", None),
        Err("Failed to download sprite 'u': expected image content, got '<unknown>'".to_string())
    );
}

fn png_bytes() -> Vec<u8> {
    let img = image::DynamicImage::ImageRgba8(image::RgbaImage::from_pixel(2, 3, image::Rgba([1, 2, 3, 255])));
    let mut out = std::io::Cursor::new(Vec::new());
    img.write_to(&mut out, image::ImageFormat::Png).unwrap();
    out.into_inner()
}

#[test]
fn sprite_bytes_decode() {
    let img = ferrisdex::api::decode_sprite("u", png_bytes()).unwrap();
    assert_eq!((img.width(), img.height()), (2, 3));
}

#[test]
fn undecodable_sprite_bytes_are_reported() {
    let err = ferrisdex::api::decode_sprite("https://x/25.png", b"not an image".to_vec()).unwrap_err();
    assert!(err.starts_with("Failed to decode sprite 'https://x/25.png': Failed to decode image: "), "{}", err);
    let mut truncated = png_bytes();
    truncated.truncate(20);
    let err = ferrisdex::api::decode_sprite("u", truncated).unwrap_err();
    assert!(err.starts_with("Failed to decode sprite 'u': Failed to decode image: "), "{}", err);
}

#[test]
fn decode_errors_are_framed() {
    let err = ferrisdex::api::finish_sprite_download("u", Err(ferrisdex::api::ImageDecodeError::Format("bad seek".to_string()))).unwrap_err();
    assert_eq!(err, "Failed to decode sprite 'u': Failed to read image format: bad seek");
    let err = ferrisdex::api::finish_sprite_download("v", Err(ferrisdex::api::ImageDecodeError::Decode("eof".to_string()))).unwrap_err();
    assert_eq!(err, "Failed to decode sprite 'v': Failed to decode image: eof");
    let img = image::DynamicImage::new_rgb8(4, 1);
    let ok = ferrisdex::api::finish_sprite_download("u", Ok(img)).unwrap();
    assert_eq!(ok.width(), 4);
}
