use vstd::prelude::*;

use crate::text::str_eq;

verus! {

/// Where a sprite is taken from.
#[derive(Clone, Copy, Debug, PartialEq, Eq, Structural)]
pub enum SpriteSource {
    Sprites,
    Home,
    OfficialArtwork,
    Showdown,
    DreamWorld,
}

/// The accepted spellings of each sprite source.
pub open spec fn spec_parse_source(value: Seq<char>) -> Option<SpriteSource> {
    if value == "sprites"@ {
        Some(SpriteSource::Sprites)
    } else if value == "home"@ {
        Some(SpriteSource::Home)
    } else if value == "official_artwork"@ || value == "official-artwork"@ {
        Some(SpriteSource::OfficialArtwork)
    } else if value == "showdown"@ {
        Some(SpriteSource::Showdown)
    } else if value == "dream_world"@ || value == "dream-world"@ {
        Some(SpriteSource::DreamWorld)
    } else {
        None
    }
}

/// The name by which each source is listed.
pub open spec fn source_name(source: SpriteSource) -> Seq<char> {
    match source {
        SpriteSource::Sprites => "sprites"@,
        SpriteSource::Home => "home"@,
        SpriteSource::OfficialArtwork => "official_artwork"@,
        SpriteSource::Showdown => "showdown"@,
        SpriteSource::DreamWorld => "dream_world"@,
    }
}

/// The list of sprite source names shown to users.
pub open spec fn source_variants_text() -> Seq<char> {
    "sprites|home|official_artwork|showdown|dream_world"@
}

impl SpriteSource {
    /// Reads a sprite source name; `None` for a name that is not one of them.
    pub fn parse(value: &str) -> (r: Option<SpriteSource>)
        ensures
            r == spec_parse_source(value@),
    {
        if str_eq(value, "sprites") {
            Some(SpriteSource::Sprites)
        } else if str_eq(value, "home") {
            Some(SpriteSource::Home)
        } else if str_eq(value, "official_artwork") || str_eq(value, "official-artwork") {
            Some(SpriteSource::OfficialArtwork)
        } else if str_eq(value, "showdown") {
            Some(SpriteSource::Showdown)
        } else if str_eq(value, "dream_world") || str_eq(value, "dream-world") {
            Some(SpriteSource::DreamWorld)
        } else {
            None
        }
    }

    /// The names of the sprite sources, separated by `|`.
    pub fn variants() -> (r: &'static str)
        ensures
            r@ == source_variants_text(),
    {
        "sprites|home|official_artwork|showdown|dream_world"
    }
}

/// The list shown to users names every source, separated by `|`.
pub proof fn law_variants_list_every_source()
    ensures
        source_variants_text() == source_name(SpriteSource::Sprites) + "|"@ + source_name(
            SpriteSource::Home,
        ) + "|"@ + source_name(SpriteSource::OfficialArtwork) + "|"@ + source_name(
            SpriteSource::Showdown,
        ) + "|"@ + source_name(SpriteSource::DreamWorld),
{
    reveal_strlit("sprites|home|official_artwork|showdown|dream_world");
    reveal_strlit("sprites");
    reveal_strlit("home");
    reveal_strlit("official_artwork");
    reveal_strlit("showdown");
    reveal_strlit("dream_world");
    reveal_strlit("|");
    assert(source_variants_text() =~= source_name(SpriteSource::Sprites) + "|"@ + source_name(
        SpriteSource::Home,
    ) + "|"@ + source_name(SpriteSource::OfficialArtwork) + "|"@ + source_name(
        SpriteSource::Showdown,
    ) + "|"@ + source_name(SpriteSource::DreamWorld));
}

/// Each listed name reads back as its source.
pub proof fn law_source_name_round_trip(source: SpriteSource)
    ensures
        spec_parse_source(source_name(source)) == Some(source),
{
    reveal_strlit("sprites");
    reveal_strlit("home");
    reveal_strlit("official_artwork");
    reveal_strlit("official-artwork");
    reveal_strlit("showdown");
    reveal_strlit("dream_world");
    reveal_strlit("dream-world");
    match source {
        SpriteSource::Sprites => {},
        SpriteSource::Home => {
            assert("home"@.len() != "sprites"@.len());
        },
        SpriteSource::OfficialArtwork => {
            assert("official_artwork"@.len() != "sprites"@.len());
            assert("official_artwork"@.len() != "home"@.len());
        },
        SpriteSource::Showdown => {
            assert("showdown"@.len() != "sprites"@.len());
            assert("showdown"@.len() != "home"@.len());
            assert("showdown"@.len() != "official_artwork"@.len());
            assert("showdown"@.len() != "official-artwork"@.len());
        },
        SpriteSource::DreamWorld => {
            assert("dream_world"@.len() != "sprites"@.len());
            assert("dream_world"@.len() != "home"@.len());
            assert("dream_world"@.len() != "official_artwork"@.len());
            assert("dream_world"@.len() != "official-artwork"@.len());
            assert("dream_world"@.len() != "showdown"@.len());
        },
    }
}

/// Exactly seven spellings name a source: `sprites`, `home`,
/// `official_artwork` or `official-artwork`, `showdown`, and `dream_world` or
/// `dream-world`; every other value names none.
pub proof fn law_source_spellings(value: Seq<char>)
    ensures
        spec_parse_source("sprites"@) == Some(SpriteSource::Sprites),
        spec_parse_source("home"@) == Some(SpriteSource::Home),
        spec_parse_source("official_artwork"@) == Some(SpriteSource::OfficialArtwork),
        spec_parse_source("official-artwork"@) == Some(SpriteSource::OfficialArtwork),
        spec_parse_source("showdown"@) == Some(SpriteSource::Showdown),
        spec_parse_source("dream_world"@) == Some(SpriteSource::DreamWorld),
        spec_parse_source("dream-world"@) == Some(SpriteSource::DreamWorld),
        !(value == "sprites"@ || value == "home"@ || value == "official_artwork"@ || value
            == "official-artwork"@ || value == "showdown"@ || value == "dream_world"@ || value
            == "dream-world"@) ==> spec_parse_source(value) is None,
{
    reveal_strlit("sprites");
    reveal_strlit("home");
    reveal_strlit("official_artwork");
    reveal_strlit("official-artwork");
    reveal_strlit("showdown");
    reveal_strlit("dream_world");
    reveal_strlit("dream-world");
    law_source_name_round_trip(SpriteSource::Sprites);
    law_source_name_round_trip(SpriteSource::Home);
    law_source_name_round_trip(SpriteSource::OfficialArtwork);
    law_source_name_round_trip(SpriteSource::Showdown);
    law_source_name_round_trip(SpriteSource::DreamWorld);
    assert("official-artwork"@.len() != "sprites"@.len());
    assert("official-artwork"@.len() != "home"@.len());
    assert("official-artwork"@[8] != "official_artwork"@[8]);
    assert("dream-world"@.len() != "sprites"@.len());
    assert("dream-world"@.len() != "home"@.len());
    assert("dream-world"@.len() != "official_artwork"@.len());
    assert("dream-world"@.len() != "official-artwork"@.len());
    assert("dream-world"@.len() != "showdown"@.len());
    assert("dream-world"@[5] != "dream_world"@[5]);
}

impl Default for SpriteSource {
    /// Official artwork is the source used when none is configured.
    fn default() -> (r: SpriteSource)
        ensures
            r == SpriteSource::OfficialArtwork,
    {
        SpriteSource::OfficialArtwork
    }
}

/// Which gender variant of a sprite is preferred.
#[derive(Clone, Copy, Debug, PartialEq, Eq, Structural)]
pub enum SpriteGender {
    Default,
    Female,
}

impl SpriteGender {
    pub fn is_female(self) -> (r: bool)
        ensures
            r == (self == SpriteGender::Female),
    {
        match self {
            SpriteGender::Female => true,
            SpriteGender::Default => false,
        }
    }
}

impl Default for SpriteGender {
    /// The default (male) variant is used when none is configured.
    fn default() -> (r: SpriteGender)
        ensures
            r == SpriteGender::Default,
    {
        SpriteGender::Default
    }
}

/// The characters of an optional string.
pub open spec fn opt_view(o: Option<String>) -> Option<Seq<char>> {
    match o {
        Some(s) => Some(s@),
        None => None,
    }
}

/// A copy of an optional string.
pub fn clone_opt_string(o: &Option<String>) -> (r: Option<String>)
    ensures
        r == *o,
{
    match o {
        Some(s) => Some(s.clone()),
        None => None,
    }
}

/// What a sprite lookup asks for.
#[derive(Clone, Debug)]
pub struct SpriteRequest {
    pub source: SpriteSource,
    pub shiny: bool,
    pub gender: SpriteGender,
    pub generation: Option<String>,
    pub version_group: Option<String>,
    pub animated: bool,
}

/// The value of the `cache` key of the configuration file: either a boolean
/// or a `[cache]` table with an `enabled` key.
#[derive(Clone, Copy, Debug, PartialEq, Eq, Structural)]
pub enum CacheField {
    Enabled(bool),
    Section { enabled: bool },
}

/// The keys of the configuration file, each of which may be missing.
#[derive(Clone, Debug, Default)]
pub struct RawConfig {
    pub cache: Option<CacheField>,
    pub sprite_source: Option<SpriteSource>,
    pub sprite_gender: Option<SpriteGender>,
    pub sprite_generation: Option<String>,
    pub sprite_version_group: Option<String>,
    pub sprite_animated: Option<bool>,
}

/// The settings read from the configuration file.
#[derive(Clone, Debug)]
pub struct AppConfig {
    pub cache_enabled: bool,
    pub sprite_source: Option<SpriteSource>,
    pub sprite_gender: Option<SpriteGender>,
    pub sprite_generation: Option<String>,
    pub sprite_version_group: Option<String>,
    pub sprite_animated: Option<bool>,
}

impl Default for AppConfig {
    /// No configuration: caching off and every sprite setting unset.
    fn default() -> (r: AppConfig)
        ensures
            !r.cache_enabled,
            r.sprite_source is None,
            r.sprite_gender is None,
            r.sprite_generation is None,
            r.sprite_version_group is None,
            r.sprite_animated is None,
    {
        AppConfig {
            cache_enabled: false,
            sprite_source: None,
            sprite_gender: None,
            sprite_generation: None,
            sprite_version_group: None,
            sprite_animated: None,
        }
    }
}

/// Whether a `cache` key, if present, enables the cache.
pub open spec fn spec_cache_enabled(cache: Option<CacheField>) -> bool {
    match cache {
        Some(CacheField::Enabled(value)) => value,
        Some(CacheField::Section { enabled }) => enabled,
        None => false,
    }
}

/// The settings that a parsed configuration file gives: caching is on only
/// where the file turns it on; the sprite keys are carried over as they are.
pub fn config_from_raw(raw: RawConfig) -> (r: AppConfig)
    ensures
        r.cache_enabled == spec_cache_enabled(raw.cache),
        r.sprite_source == raw.sprite_source,
        r.sprite_gender == raw.sprite_gender,
        r.sprite_generation == raw.sprite_generation,
        r.sprite_version_group == raw.sprite_version_group,
        r.sprite_animated == raw.sprite_animated,
{
    let cache_enabled: bool = match raw.cache {
        Some(CacheField::Enabled(value)) => value,
        Some(CacheField::Section { enabled }) => enabled,
        None => false,
    };
    AppConfig {
        cache_enabled,
        sprite_source: raw.sprite_source,
        sprite_gender: raw.sprite_gender,
        sprite_generation: raw.sprite_generation,
        sprite_version_group: raw.sprite_version_group,
        sprite_animated: raw.sprite_animated,
    }
}

/// The source that an optional setting stands for.
pub open spec fn source_or_default(s: Option<SpriteSource>) -> SpriteSource {
    match s {
        Some(v) => v,
        None => SpriteSource::OfficialArtwork,
    }
}

/// The gender that an optional setting stands for.
pub open spec fn gender_or_default(g: Option<SpriteGender>) -> SpriteGender {
    match g {
        Some(v) => v,
        None => SpriteGender::Default,
    }
}

/// Caching is off unless the `cache` key turns it on, in either of its two
/// forms; an unset source is official artwork and an unset gender the
/// default one, while a set value is kept.
pub proof fn law_configuration_defaults(enabled: bool, source: SpriteSource, gender: SpriteGender)
    ensures
        !spec_cache_enabled(None),
        spec_cache_enabled(Some(CacheField::Enabled(enabled))) == enabled,
        spec_cache_enabled(Some(CacheField::Section { enabled })) == enabled,
        source_or_default(None) == SpriteSource::OfficialArtwork,
        source_or_default(Some(source)) == source,
        gender_or_default(None) == SpriteGender::Default,
        gender_or_default(Some(gender)) == gender,
{
}

impl AppConfig {
    /// The sprite request that the configuration alone gives: each unset
    /// setting takes its default (official artwork, default gender, no
    /// generation or version group, not animated).
    pub fn default_sprite_request(&self, shiny: bool) -> (r: SpriteRequest)
        ensures
            r.source == source_or_default(self.sprite_source),
            r.shiny == shiny,
            r.gender == gender_or_default(self.sprite_gender),
            r.generation == self.sprite_generation,
            r.version_group == self.sprite_version_group,
            r.animated == (self.sprite_animated == Some(true)),
    {
        let source: SpriteSource = match self.sprite_source {
            Some(s) => s,
            None => SpriteSource::default(),
        };
        let gender: SpriteGender = match self.sprite_gender {
            Some(g) => g,
            None => SpriteGender::default(),
        };
        let animated: bool = match self.sprite_animated {
            Some(a) => a,
            None => false,
        };
        SpriteRequest {
            source,
            shiny,
            gender,
            generation: clone_opt_string(&self.sprite_generation),
            version_group: clone_opt_string(&self.sprite_version_group),
            animated,
        }
    }
}

} // verus!
