use vstd::prelude::*;
use vstd::string::*;

use crate::config::{clone_opt_string, opt_view, SpriteGender, SpriteRequest, SpriteSource};
use crate::text::{
    contains_seq, contains_str, has_prefix, int_decimal, parse_i64, push_char, push_decimal_i64,
    replace_all, replace_str, spec_parse_i64, starts_with, str_eq,
};

verus! {

// ---------------------------------------------------------------------------
// The data of a pokemon that the library reads
// ---------------------------------------------------------------------------

/// The sprite URLs that the PokeAPI gives for a pokemon; each may be missing.
#[derive(Clone, Debug, Default)]
pub struct PokemonSprites {
    pub front_default: Option<String>,
    pub front_shiny: Option<String>,
    pub front_female: Option<String>,
    pub front_shiny_female: Option<String>,
    pub official_artwork_front_default: Option<String>,
    pub dream_world_front_default: Option<String>,
    pub dream_world_front_female: Option<String>,
    pub home_front_default: Option<String>,
    pub home_front_shiny: Option<String>,
    pub home_front_female: Option<String>,
    pub home_front_shiny_female: Option<String>,
}

/// One base stat of a pokemon.
#[derive(Clone, Debug)]
pub struct PokemonStat {
    pub name: String,
    pub base_stat: i64,
}

/// A pokemon as the PokeAPI describes it, as far as the library reads it.
/// An ability whose name the API leaves out is `None`.
#[derive(Clone, Debug)]
pub struct Pokemon {
    pub id: i64,
    pub name: String,
    pub abilities: Vec<Option<String>>,
    pub stats: Vec<PokemonStat>,
    pub sprites: PokemonSprites,
}

// ---------------------------------------------------------------------------
// Sprite URLs
// ---------------------------------------------------------------------------

/// `a` if present, else `b`.
pub open spec fn or_else(a: Option<Seq<char>>, b: Option<Seq<char>>) -> Option<Seq<char>> {
    match a {
        Some(_) => a,
        None => b,
    }
}

/// The URL picked among a source's four variants: the most specific one that
/// exists, falling back towards the default one.
pub open spec fn spec_sprite_pair(
    default: Option<Seq<char>>,
    shiny_url: Option<Seq<char>>,
    female_url: Option<Seq<char>>,
    shiny_female_url: Option<Seq<char>>,
    shiny: bool,
    female: bool,
) -> Option<Seq<char>> {
    if female && shiny {
        or_else(shiny_female_url, or_else(female_url, or_else(shiny_url, default)))
    } else if female {
        or_else(female_url, default)
    } else if shiny {
        or_else(shiny_url, default)
    } else {
        default
    }
}

fn or_else_clone(a: &Option<String>, b: Option<String>) -> (r: Option<String>)
    ensures
        opt_view(r) == or_else(opt_view(*a), opt_view(b)),
{
    match a {
        Some(s) => Some(s.clone()),
        None => b,
    }
}

pub fn sprite_pair(
    default: &Option<String>,
    shiny_url: &Option<String>,
    female_url: &Option<String>,
    shiny_female_url: &Option<String>,
    shiny: bool,
    female: bool,
) -> (r: Option<String>)
    ensures
        opt_view(r) == spec_sprite_pair(
            opt_view(*default),
            opt_view(*shiny_url),
            opt_view(*female_url),
            opt_view(*shiny_female_url),
            shiny,
            female,
        ),
{
    if female && shiny {
        let d: Option<String> = clone_opt_string(default);
        let s: Option<String> = or_else_clone(shiny_url, d);
        let f: Option<String> = or_else_clone(female_url, s);
        or_else_clone(shiny_female_url, f)
    } else if female {
        or_else_clone(female_url, clone_opt_string(default))
    } else if shiny {
        or_else_clone(shiny_url, clone_opt_string(default))
    } else {
        clone_opt_string(default)
    }
}

/// The path segment of official artwork, and the one of its shiny variant.
pub open spec fn artwork_segment() -> Seq<char> {
    "/other/official-artwork/"@
}

pub open spec fn shiny_artwork_segment() -> Seq<char> {
    "/other/official-artwork/shiny/"@
}

/// The shiny official artwork URL, where the default URL is an official
/// artwork URL: the same URL with the artwork segment turned into its shiny
/// variant.
pub open spec fn spec_derived_shiny_artwork(front_default: Option<Seq<char>>) -> Option<Seq<char>> {
    match front_default {
        Some(url) => if contains_seq(url, artwork_segment()) {
            Some(replace_all(url, artwork_segment(), shiny_artwork_segment()))
        } else {
            None
        },
        None => None,
    }
}

pub fn derived_official_artwork_shiny_url(front_default: &Option<String>) -> (r: Option<String>)
    ensures
        opt_view(r) == spec_derived_shiny_artwork(opt_view(*front_default)),
{
    match front_default {
        None => None,
        Some(url) => {
            let segment: &str = "/other/official-artwork/";
            if contains_str(url.as_str(), segment) {
                proof {
                    reveal_strlit("/other/official-artwork/");
                }
                Some(replace_str(url.as_str(), segment, "/other/official-artwork/shiny/"))
            } else {
                None
            }
        },
    }
}

/// The showdown sprite URL for pokemon `id`.
pub open spec fn spec_showdown_url(id: i64, shiny: bool, female: bool) -> Seq<char> {
    "https://raw.githubusercontent.com/PokeAPI/sprites/master/sprites/pokemon/other/showdown"@
        + (if shiny { "/shiny"@ } else { Seq::empty() })
        + (if female { "/female"@ } else { Seq::empty() })
        + seq!['/']
        + int_decimal(id as int)
        + ".gif"@
}

pub fn showdown_url(id: i64, shiny: bool, female: bool) -> (r: String)
    ensures
        r@ == spec_showdown_url(id, shiny, female),
{
    let mut path: String = String::new();
    path.append(
        "https://raw.githubusercontent.com/PokeAPI/sprites/master/sprites/pokemon/other/showdown",
    );
    if shiny {
        path.append("/shiny");
    }
    if female {
        path.append("/female");
    }
    push_char(&mut path, '/');
    push_decimal_i64(&mut path, id);
    path.append(".gif");
    assert(path@ =~= spec_showdown_url(id, shiny, female));
    path
}

/// The version group used for a generation when none is given.
pub open spec fn spec_default_version_group(generation: Seq<char>) -> Seq<char> {
    if generation == "generation-i"@ {
        "red-blue"@
    } else if generation == "generation-ii"@ {
        "crystal"@
    } else if generation == "generation-iii"@ {
        "emerald"@
    } else if generation == "generation-iv"@ {
        "diamond-pearl"@
    } else if generation == "generation-v"@ {
        "black-white"@
    } else if generation == "generation-vi"@ {
        "x-y"@
    } else if generation == "generation-vii"@ {
        "ultra-sun-ultra-moon"@
    } else if generation == "generation-viii"@ {
        "icons"@
    } else if generation == "generation-ix"@ {
        "scarlet-violet"@
    } else {
        "red-blue"@
    }
}

pub fn default_version_group(generation: &str) -> (r: &'static str)
    ensures
        r@ == spec_default_version_group(generation@),
{
    if str_eq(generation, "generation-i") {
        "red-blue"
    } else if str_eq(generation, "generation-ii") {
        "crystal"
    } else if str_eq(generation, "generation-iii") {
        "emerald"
    } else if str_eq(generation, "generation-iv") {
        "diamond-pearl"
    } else if str_eq(generation, "generation-v") {
        "black-white"
    } else if str_eq(generation, "generation-vi") {
        "x-y"
    } else if str_eq(generation, "generation-vii") {
        "ultra-sun-ultra-moon"
    } else if str_eq(generation, "generation-viii") {
        "icons"
    } else if str_eq(generation, "generation-ix") {
        "scarlet-violet"
    } else {
        "red-blue"
    }
}

/// Generations whose sprite tree has female variants.
pub open spec fn supports_female(generation: Seq<char>) -> bool {
    ||| generation == "generation-iv"@
    ||| generation == "generation-v"@
    ||| generation == "generation-vi"@
    ||| generation == "generation-vii"@
    ||| generation == "generation-viii"@
    ||| generation == "generation-ix"@
}

/// Generations whose sprite tree has shiny variants.
pub open spec fn supports_shiny(generation: Seq<char>) -> bool {
    !(generation == "generation-i"@ || generation == "generation-ix"@)
}

/// Generation and version group pairs whose sprite tree has animated variants.
pub open spec fn supports_animated(generation: Seq<char>, version_group: Seq<char>) -> bool {
    ||| (generation == "generation-ii"@ && version_group == "crystal"@)
    ||| (generation == "generation-v"@ && version_group == "black-white"@)
}

/// The shiny, female and animated choices, each kept only where the
/// generation (and version group) has that variant.
pub open spec fn spec_normalize_variant(
    generation: Seq<char>,
    version_group: Seq<char>,
    shiny: bool,
    female: bool,
    animated: bool,
) -> (bool, bool, bool) {
    (
        shiny && supports_shiny(generation),
        female && supports_female(generation),
        animated && supports_animated(generation, version_group),
    )
}

pub fn normalize_generation_variant(
    generation: &str,
    version_group: &str,
    shiny: bool,
    female: bool,
    animated: bool,
) -> (r: (bool, bool, bool))
    ensures
        r == spec_normalize_variant(generation@, version_group@, shiny, female, animated),
{
    let supports_female: bool = str_eq(generation, "generation-iv") || str_eq(
        generation,
        "generation-v",
    ) || str_eq(generation, "generation-vi") || str_eq(generation, "generation-vii") || str_eq(
        generation,
        "generation-viii",
    ) || str_eq(generation, "generation-ix");
    let supports_shiny: bool = !(str_eq(generation, "generation-i") || str_eq(
        generation,
        "generation-ix",
    ));
    let supports_animated: bool = (str_eq(generation, "generation-ii") && str_eq(
        version_group,
        "crystal",
    )) || (str_eq(generation, "generation-v") && str_eq(version_group, "black-white"));
    (shiny && supports_shiny, female && supports_female, animated && supports_animated)
}

/// The sprite URL in the versions tree of the given generation.
pub open spec fn spec_generation_sprite_url(
    id: i64,
    generation: Seq<char>,
    version_group: Option<Seq<char>>,
    shiny: bool,
    female: bool,
    animated: bool,
) -> Seq<char> {
    let version = match version_group {
        Some(v) => v,
        None => spec_default_version_group(generation),
    };
    let (shiny, female, animated) = spec_normalize_variant(
        generation,
        version,
        shiny,
        female,
        animated,
    );
    "https://raw.githubusercontent.com/PokeAPI/sprites/master/sprites/pokemon/versions/"@
        + generation + "/"@ + version + "/"@
        + (if animated { "animated/"@ } else { Seq::empty() })
        + (if shiny { "shiny/"@ } else { Seq::empty() })
        + (if female { "female/"@ } else { Seq::empty() })
        + int_decimal(id as int)
        + (if animated { ".gif"@ } else { ".png"@ })
}

pub fn generation_sprite_url(
    id: i64,
    generation: &str,
    version_group: Option<&str>,
    shiny: bool,
    female: bool,
    animated: bool,
) -> (r: String)
    ensures
        r@ == spec_generation_sprite_url(
            id,
            generation@,
            match version_group {
                Some(v) => Some(v@),
                None => None,
            },
            shiny,
            female,
            animated,
        ),
{
    let version: &str = match version_group {
        Some(v) => v,
        None => default_version_group(generation),
    };
    let (shiny, female, animated) = normalize_generation_variant(
        generation,
        version,
        shiny,
        female,
        animated,
    );
    let mut path: String = String::new();
    path.append(
        "https://raw.githubusercontent.com/PokeAPI/sprites/master/sprites/pokemon/versions/",
    );
    path.append(generation);
    path.append("/");
    path.append(version);
    path.append("/");
    if animated {
        path.append("animated/");
    }
    if shiny {
        path.append("shiny/");
    }
    if female {
        path.append("female/");
    }
    push_decimal_i64(&mut path, id);
    path.append(if animated { ".gif" } else { ".png" });
    path
}

// ---------------------------------------------------------------------------
// Choosing a source
// ---------------------------------------------------------------------------

/// The order in which sources are tried when the preferred one has no sprite.
pub open spec fn source_order() -> Seq<SpriteSource> {
    seq![
        SpriteSource::OfficialArtwork,
        SpriteSource::Sprites,
        SpriteSource::DreamWorld,
        SpriteSource::Home,
        SpriteSource::Showdown,
    ]
}

/// The sources to try: the preferred one first, then the others in
/// [`source_order`].
pub open spec fn spec_fallback_sources(primary: SpriteSource) -> Seq<SpriteSource> {
    seq![primary] + source_order().filter(other_than(primary))
}

/// Holds of every source but `primary`.
pub open spec fn other_than(primary: SpriteSource) -> spec_fn(SpriteSource) -> bool {
    |s: SpriteSource| s != primary
}

pub fn fallback_sources(primary: SpriteSource) -> (r: Vec<SpriteSource>)
    ensures
        r@ == spec_fallback_sources(primary),
{
    let ordered: Vec<SpriteSource> = vec![
        SpriteSource::OfficialArtwork,
        SpriteSource::Sprites,
        SpriteSource::DreamWorld,
        SpriteSource::Home,
        SpriteSource::Showdown,
    ];
    assert(ordered@ =~= source_order());
    let ghost pred = other_than(primary);
    let mut sources: Vec<SpriteSource> = Vec::new();
    sources.push(primary);
    assert(ordered@.take(0).filter(pred) =~= Seq::<SpriteSource>::empty());
    let mut i: usize = 0;
    while i < ordered.len()
        invariant
            ordered@ == source_order(),
            i <= ordered@.len(),
            pred == other_than(primary),
            sources@ == seq![primary] + ordered@.take(i as int).filter(pred),
        decreases ordered@.len() - i,
    {
        let source: SpriteSource = ordered[i];
        proof {
            assert(ordered@.take(i + 1) =~= ordered@.take(i as int).push(source));
            ordered@.take(i as int).lemma_filter_push(source, pred);
        }
        if source != primary {
            sources.push(source);
        }
        i += 1;
        assert(sources@ =~= seq![primary] + ordered@.take(i as int).filter(pred));
    }
    assert(ordered@.take(5) =~= ordered@);
    sources
}

/// The sprite that `source` has for the request, if any.
pub open spec fn spec_sprite_from_source(
    pokemon: Pokemon,
    request: SpriteRequest,
    source: SpriteSource,
) -> Option<Seq<char>> {
    let sp = pokemon.sprites;
    let female = request.gender == SpriteGender::Female;
    match source {
        SpriteSource::OfficialArtwork => {
            let default = opt_view(sp.official_artwork_front_default);
            if request.shiny {
                or_else(spec_derived_shiny_artwork(default), default)
            } else {
                default
            }
        },
        SpriteSource::Sprites => spec_sprite_pair(
            opt_view(sp.front_default),
            opt_view(sp.front_shiny),
            opt_view(sp.front_female),
            opt_view(sp.front_shiny_female),
            request.shiny,
            female,
        ),
        SpriteSource::DreamWorld => if female {
            or_else(opt_view(sp.dream_world_front_female), opt_view(sp.dream_world_front_default))
        } else {
            opt_view(sp.dream_world_front_default)
        },
        SpriteSource::Home => spec_sprite_pair(
            opt_view(sp.home_front_default),
            opt_view(sp.home_front_shiny),
            opt_view(sp.home_front_female),
            opt_view(sp.home_front_shiny_female),
            request.shiny,
            female,
        ),
        SpriteSource::Showdown => Some(spec_showdown_url(pokemon.id, request.shiny, female)),
    }
}

pub fn sprite_from_source(pokemon: &Pokemon, request: &SpriteRequest, source: SpriteSource) -> (r:
    Option<String>)
    ensures
        opt_view(r) == spec_sprite_from_source(*pokemon, *request, source),
{
    let sp: &PokemonSprites = &pokemon.sprites;
    let female: bool = request.gender.is_female();
    match source {
        SpriteSource::OfficialArtwork => {
            let default: &Option<String> = &sp.official_artwork_front_default;
            if request.shiny {
                let derived: Option<String> = derived_official_artwork_shiny_url(default);
                match derived {
                    Some(url) => Some(url),
                    None => clone_opt_string(default),
                }
            } else {
                clone_opt_string(default)
            }
        },
        SpriteSource::Sprites => sprite_pair(
            &sp.front_default,
            &sp.front_shiny,
            &sp.front_female,
            &sp.front_shiny_female,
            request.shiny,
            female,
        ),
        SpriteSource::DreamWorld => {
            if female && sp.dream_world_front_female.is_some() {
                clone_opt_string(&sp.dream_world_front_female)
            } else {
                clone_opt_string(&sp.dream_world_front_default)
            }
        },
        SpriteSource::Home => sprite_pair(
            &sp.home_front_default,
            &sp.home_front_shiny,
            &sp.home_front_female,
            &sp.home_front_shiny_female,
            request.shiny,
            female,
        ),
        SpriteSource::Showdown => Some(showdown_url(pokemon.id, request.shiny, female)),
    }
}

/// The first sprite that one of `sources`, tried in order, has for the request.
pub open spec fn first_available_sprite(
    pokemon: Pokemon,
    request: SpriteRequest,
    sources: Seq<SpriteSource>,
) -> Option<Seq<char>>
    decreases sources.len(),
{
    if sources.len() == 0 {
        None
    } else {
        match spec_sprite_from_source(pokemon, request, sources[0]) {
            Some(url) => Some(url),
            None => first_available_sprite(pokemon, request, sources.drop_first()),
        }
    }
}

/// The sprite URL for a request: with a generation, the URL in that
/// generation's versions tree; otherwise the first sprite found among the
/// preferred source and then the fallback order.
pub open spec fn spec_get_sprite(pokemon: Pokemon, request: SpriteRequest) -> Option<Seq<char>> {
    match request.generation {
        Some(generation) => Some(
            spec_generation_sprite_url(
                pokemon.id,
                generation@,
                opt_view(request.version_group),
                request.shiny,
                (request.gender == SpriteGender::Female),
                request.animated,
            ),
        ),
        None => first_available_sprite(pokemon, request, spec_fallback_sources(request.source)),
    }
}

/// The sprite URL to show for `pokemon`, as [`spec_get_sprite`] says.
pub fn get_sprite(pokemon: &Pokemon, request: &SpriteRequest) -> (r: Option<String>)
    ensures
        opt_view(r) == spec_get_sprite(*pokemon, *request),
{
    if let Some(generation) = &request.generation {
        let version_group: Option<&str> = match &request.version_group {
            Some(v) => Some(v.as_str()),
            None => None,
        };
        return Some(
            generation_sprite_url(
                pokemon.id,
                generation.as_str(),
                version_group,
                request.shiny,
                request.gender.is_female(),
                request.animated,
            ),
        );
    }
    let sources: Vec<SpriteSource> = fallback_sources(request.source);
    let ghost all = sources@;
    assert(all.skip(0) =~= all);
    let mut i: usize = 0;
    while i < sources.len()
        invariant
            sources@ == all,
            all == spec_fallback_sources(request.source),
            request.generation is None,
            i <= all.len(),
            first_available_sprite(*pokemon, *request, all) == first_available_sprite(
                *pokemon,
                *request,
                all.skip(i as int),
            ),
        decreases all.len() - i,
    {
        assert(all.skip(i as int).drop_first() =~= all.skip(i + 1));
        let found: Option<String> = sprite_from_source(pokemon, request, sources[i]);
        if let Some(url) = found {
            return Some(url);
        }
        i += 1;
    }
    None
}

// ---------------------------------------------------------------------------
// Laws of sprite selection
// ---------------------------------------------------------------------------

/// Sources are tried in the order official artwork, sprites, dream world,
/// home, showdown, with the preferred source moved to the front.
pub proof fn law_fallback_order(primary: SpriteSource)
    ensures
        spec_fallback_sources(primary) == match primary {
            SpriteSource::OfficialArtwork => seq![
                SpriteSource::OfficialArtwork,
                SpriteSource::Sprites,
                SpriteSource::DreamWorld,
                SpriteSource::Home,
                SpriteSource::Showdown,
            ],
            SpriteSource::Sprites => seq![
                SpriteSource::Sprites,
                SpriteSource::OfficialArtwork,
                SpriteSource::DreamWorld,
                SpriteSource::Home,
                SpriteSource::Showdown,
            ],
            SpriteSource::DreamWorld => seq![
                SpriteSource::DreamWorld,
                SpriteSource::OfficialArtwork,
                SpriteSource::Sprites,
                SpriteSource::Home,
                SpriteSource::Showdown,
            ],
            SpriteSource::Home => seq![
                SpriteSource::Home,
                SpriteSource::OfficialArtwork,
                SpriteSource::Sprites,
                SpriteSource::DreamWorld,
                SpriteSource::Showdown,
            ],
            SpriteSource::Showdown => seq![
                SpriteSource::Showdown,
                SpriteSource::OfficialArtwork,
                SpriteSource::Sprites,
                SpriteSource::DreamWorld,
                SpriteSource::Home,
            ],
        },
{
    reveal_with_fuel(Seq::<_>::filter, 6);
    let o = source_order();
    assert(o.drop_last().drop_last().drop_last().drop_last().drop_last() =~= Seq::<
        SpriteSource,
    >::empty());
    assert(spec_fallback_sources(primary) =~= match primary {
        SpriteSource::OfficialArtwork => seq![
            SpriteSource::OfficialArtwork,
            SpriteSource::Sprites,
            SpriteSource::DreamWorld,
            SpriteSource::Home,
            SpriteSource::Showdown,
        ],
        SpriteSource::Sprites => seq![
            SpriteSource::Sprites,
            SpriteSource::OfficialArtwork,
            SpriteSource::DreamWorld,
            SpriteSource::Home,
            SpriteSource::Showdown,
        ],
        SpriteSource::DreamWorld => seq![
            SpriteSource::DreamWorld,
            SpriteSource::OfficialArtwork,
            SpriteSource::Sprites,
            SpriteSource::Home,
            SpriteSource::Showdown,
        ],
        SpriteSource::Home => seq![
            SpriteSource::Home,
            SpriteSource::OfficialArtwork,
            SpriteSource::Sprites,
            SpriteSource::DreamWorld,
            SpriteSource::Showdown,
        ],
        SpriteSource::Showdown => seq![
            SpriteSource::Showdown,
            SpriteSource::OfficialArtwork,
            SpriteSource::Sprites,
            SpriteSource::DreamWorld,
            SpriteSource::Home,
        ],
    });
}

/// The sources tried are every source once, the preferred one first.
pub proof fn law_fallback_sources_complete(primary: SpriteSource)
    ensures
        spec_fallback_sources(primary).len() == 5,
        spec_fallback_sources(primary)[0] == primary,
        forall|s: SpriteSource| #[trigger] spec_fallback_sources(primary).contains(s),
        forall|i: int, j: int|
            0 <= i < j < 5 ==> spec_fallback_sources(primary)[i] != spec_fallback_sources(
                primary,
            )[j],
{
    law_fallback_order(primary);
    let f = spec_fallback_sources(primary);
    assert forall|s: SpriteSource| #[trigger] f.contains(s) by {
        let i: int = if f[0] == s {
            0
        } else if f[1] == s {
            1
        } else if f[2] == s {
            2
        } else if f[3] == s {
            3
        } else {
            4
        };
        assert(f[i] == s);
    }
}

/// If one of `sources` has a sprite, the first of them that has one gives it.
proof fn lemma_first_available_found(
    pokemon: Pokemon,
    request: SpriteRequest,
    sources: Seq<SpriteSource>,
    k: int,
)
    requires
        0 <= k < sources.len(),
        spec_sprite_from_source(pokemon, request, sources[k]) is Some,
    ensures
        first_available_sprite(pokemon, request, sources) is Some,
    decreases k,
{
    if k > 0 && spec_sprite_from_source(pokemon, request, sources[0]) is None {
        assert(sources.drop_first()[k - 1] == sources[k]);
        lemma_first_available_found(pokemon, request, sources.drop_first(), k - 1);
    }
}

/// A sprite URL is always found: with a generation it is built from the
/// versions tree, and otherwise the showdown source, which is always among
/// the sources tried, always has one.
pub proof fn law_sprite_always_found(pokemon: Pokemon, request: SpriteRequest)
    ensures
        spec_get_sprite(pokemon, request) is Some,
{
    if request.generation is None {
        law_fallback_sources_complete(request.source);
        let f = spec_fallback_sources(request.source);
        assert(f.contains(SpriteSource::Showdown));
        let k: int = choose|k: int| 0 <= k < f.len() && f[k] == SpriteSource::Showdown;
        lemma_first_available_found(pokemon, request, f, k);
    }
}

/// Without a generation, a sprite of the preferred source is the one chosen.
pub proof fn law_preferred_source_first(pokemon: Pokemon, request: SpriteRequest)
    requires
        request.generation is None,
        spec_sprite_from_source(pokemon, request, request.source) is Some,
    ensures
        spec_get_sprite(pokemon, request) == spec_sprite_from_source(
            pokemon,
            request,
            request.source,
        ),
{
}

/// If the first `k` sources have no sprite and the next one has, that one is
/// what the sources, tried in order, give.
proof fn lemma_first_available_at(
    pokemon: Pokemon,
    request: SpriteRequest,
    sources: Seq<SpriteSource>,
    k: int,
)
    requires
        0 <= k < sources.len(),
        spec_sprite_from_source(pokemon, request, sources[k]) is Some,
        forall|j: int| 0 <= j < k ==> #[trigger] spec_sprite_from_source(pokemon, request, sources[j]) is None,
    ensures
        first_available_sprite(pokemon, request, sources) == spec_sprite_from_source(
            pokemon,
            request,
            sources[k],
        ),
    decreases k,
{
    if k > 0 {
        let rest = sources.drop_first();
        assert(spec_sprite_from_source(pokemon, request, sources[0]) is None);
        assert forall|j: int| 0 <= j < k - 1 implies #[trigger] spec_sprite_from_source(
            pokemon,
            request,
            rest[j],
        ) is None by {
            assert(rest[j] == sources[j + 1]);
        }
        assert(rest[k - 1] == sources[k]);
        lemma_first_available_at(pokemon, request, rest, k - 1);
    }
}

/// Without a generation, when the preferred source has no sprite the next
/// source in the fallback order that has one gives it: the sprite chosen is
/// that of the first source, in the order tried, that has one.
pub proof fn law_fallback_takes_first_available(pokemon: Pokemon, request: SpriteRequest, k: int)
    requires
        request.generation is None,
        0 <= k < 5,
        spec_sprite_from_source(pokemon, request, spec_fallback_sources(request.source)[k]) is Some,
        forall|j: int|
            0 <= j < k ==> #[trigger] spec_sprite_from_source(
                pokemon,
                request,
                spec_fallback_sources(request.source)[j],
            ) is None,
    ensures
        spec_get_sprite(pokemon, request) == spec_sprite_from_source(
            pokemon,
            request,
            spec_fallback_sources(request.source)[k],
        ),
{
    law_fallback_sources_complete(request.source);
    lemma_first_available_at(pokemon, request, spec_fallback_sources(request.source), k);
}

/// With a generation, the sprite is always the one in that generation's
/// versions tree, for the requested version group, shininess, female
/// variant and animation, whatever the sources hold.
pub proof fn law_generation_request_uses_versions_tree(pokemon: Pokemon, request: SpriteRequest)
    requires
        request.generation is Some,
    ensures
        spec_get_sprite(pokemon, request) == Some(
            spec_generation_sprite_url(
                pokemon.id,
                request.generation->Some_0@,
                opt_view(request.version_group),
                request.shiny,
                request.gender == SpriteGender::Female,
                request.animated,
            ),
        ),
{
}

/// The showdown source gives the showdown URL of the pokemon's number, with
/// a `/shiny` segment exactly when the request is shiny and a `/female`
/// segment exactly when it asks for the female variant; with no generation
/// and showdown preferred, that is the sprite chosen.
pub proof fn law_showdown_follows_request(pokemon: Pokemon, request: SpriteRequest)
    ensures
        spec_sprite_from_source(pokemon, request, SpriteSource::Showdown) == Some(
            "https://raw.githubusercontent.com/PokeAPI/sprites/master/sprites/pokemon/other/showdown"@
                + (if request.shiny { "/shiny"@ } else { Seq::<char>::empty() })
                + (if request.gender == SpriteGender::Female { "/female"@ } else { Seq::<char>::empty() })
                + seq!['/'] + int_decimal(pokemon.id as int) + ".gif"@,
        ),
        request.generation is None && request.source == SpriteSource::Showdown ==> spec_get_sprite(
            pokemon,
            request,
        ) == spec_sprite_from_source(pokemon, request, SpriteSource::Showdown),
{
}

/// Female sprites exist in the versions tree from generation iv to ix: a
/// female request is kept there and dropped in generations i to iii. Shiny
/// sprites exist in every generation but i and ix; animated ones only for
/// crystal in generation ii and black-white in generation v.
pub proof fn law_generation_variants(
    generation: Seq<char>,
    version_group: Seq<char>,
    shiny: bool,
    female: bool,
    animated: bool,
)
    ensures
        (generation == "generation-iv"@ || generation == "generation-v"@ || generation
            == "generation-vi"@ || generation == "generation-vii"@ || generation
            == "generation-viii"@ || generation == "generation-ix"@) ==> spec_normalize_variant(
            generation,
            version_group,
            shiny,
            female,
            animated,
        ).1 == female,
        (generation == "generation-i"@ || generation == "generation-ii"@ || generation
            == "generation-iii"@) ==> !spec_normalize_variant(
            generation,
            version_group,
            shiny,
            female,
            animated,
        ).1,
        (generation == "generation-ii"@ || generation == "generation-iii"@ || generation
            == "generation-iv"@ || generation == "generation-v"@ || generation
            == "generation-vi"@ || generation == "generation-vii"@ || generation
            == "generation-viii"@) ==> spec_normalize_variant(
            generation,
            version_group,
            shiny,
            female,
            animated,
        ).0 == shiny,
        (generation == "generation-i"@ || generation == "generation-ix"@)
            ==> !spec_normalize_variant(generation, version_group, shiny, female, animated).0,
        spec_normalize_variant(generation, version_group, shiny, female, animated).2 == (animated
            && ((generation == "generation-ii"@ && version_group == "crystal"@) || (generation
            == "generation-v"@ && version_group == "black-white"@))),
{
    lemma_generation_names_distinct();
    let names = seq![
        "generation-i"@,
        "generation-ii"@,
        "generation-iii"@,
        "generation-iv"@,
        "generation-v"@,
        "generation-vi"@,
        "generation-vii"@,
        "generation-viii"@,
        "generation-ix"@,
    ];
    assert(names[0] == "generation-i"@);
    assert(names[1] == "generation-ii"@);
    assert(names[2] == "generation-iii"@);
    assert(names[3] == "generation-iv"@);
    assert(names[4] == "generation-v"@);
    assert(names[5] == "generation-vi"@);
    assert(names[6] == "generation-vii"@);
    assert(names[7] == "generation-viii"@);
    assert(names[8] == "generation-ix"@);
}

/// Among a source's four variants the most specific one asked for and
/// present wins: with neither shiny nor female asked, the default; with one
/// of them, that variant, else the default; with both, the shiny female
/// variant, else the female one, else the shiny one, else the default.
pub proof fn law_sprite_pair_most_specific(
    default: Option<Seq<char>>,
    shiny_url: Option<Seq<char>>,
    female_url: Option<Seq<char>>,
    shiny_female_url: Option<Seq<char>>,
    shiny: bool,
    female: bool,
)
    ensures
        ({
            let r = spec_sprite_pair(default, shiny_url, female_url, shiny_female_url, shiny, female);
            &&& !shiny && !female ==> r == default
            &&& shiny && !female ==> r == (if shiny_url is Some { shiny_url } else { default })
            &&& !shiny && female ==> r == (if female_url is Some { female_url } else { default })
            &&& shiny && female ==> r == (if shiny_female_url is Some {
                shiny_female_url
            } else if female_url is Some {
                female_url
            } else if shiny_url is Some {
                shiny_url
            } else {
                default
            })
        }),
{
}

/// Each source reads its own fields: the sprites source the `front_*` URLs,
/// home the `home_front_*` URLs, dream world its female URL for a female
/// request where there is one and else its default URL, and official
/// artwork its default URL, which a shiny request turns into the shiny
/// artwork URL where it is an official artwork URL.
pub proof fn law_sources_read_their_fields(pokemon: Pokemon, request: SpriteRequest)
    ensures
        ({
            let sp = pokemon.sprites;
            let female = request.gender == SpriteGender::Female;
            &&& spec_sprite_from_source(pokemon, request, SpriteSource::Sprites)
                == spec_sprite_pair(
                opt_view(sp.front_default),
                opt_view(sp.front_shiny),
                opt_view(sp.front_female),
                opt_view(sp.front_shiny_female),
                request.shiny,
                female,
            )
            &&& spec_sprite_from_source(pokemon, request, SpriteSource::Home) == spec_sprite_pair(
                opt_view(sp.home_front_default),
                opt_view(sp.home_front_shiny),
                opt_view(sp.home_front_female),
                opt_view(sp.home_front_shiny_female),
                request.shiny,
                female,
            )
            &&& spec_sprite_from_source(pokemon, request, SpriteSource::DreamWorld) == (if female
                && sp.dream_world_front_female is Some {
                opt_view(sp.dream_world_front_female)
            } else {
                opt_view(sp.dream_world_front_default)
            })
            &&& spec_sprite_from_source(pokemon, request, SpriteSource::OfficialArtwork) == match sp.official_artwork_front_default {
                None => None,
                Some(url) => if request.shiny && contains_seq(
                    url@,
                    "/other/official-artwork/"@,
                ) {
                    Some(
                        replace_all(
                            url@,
                            "/other/official-artwork/"@,
                            "/other/official-artwork/shiny/"@,
                        ),
                    )
                } else {
                    Some(url@)
                },
            }
        }),
{
}

/// The version group that each generation uses when none is given; any
/// other generation uses `red-blue`.
pub proof fn law_default_version_groups(generation: Seq<char>)
    ensures
        spec_default_version_group("generation-i"@) == "red-blue"@,
        spec_default_version_group("generation-ii"@) == "crystal"@,
        spec_default_version_group("generation-iii"@) == "emerald"@,
        spec_default_version_group("generation-iv"@) == "diamond-pearl"@,
        spec_default_version_group("generation-v"@) == "black-white"@,
        spec_default_version_group("generation-vi"@) == "x-y"@,
        spec_default_version_group("generation-vii"@) == "ultra-sun-ultra-moon"@,
        spec_default_version_group("generation-viii"@) == "icons"@,
        spec_default_version_group("generation-ix"@) == "scarlet-violet"@,
        !(generation == "generation-i"@ || generation == "generation-ii"@ || generation
            == "generation-iii"@ || generation == "generation-iv"@ || generation
            == "generation-v"@ || generation == "generation-vi"@ || generation
            == "generation-vii"@ || generation == "generation-viii"@ || generation
            == "generation-ix"@) ==> spec_default_version_group(generation) == "red-blue"@,
{
    lemma_generation_names_distinct();
    let names = seq![
        "generation-i"@,
        "generation-ii"@,
        "generation-iii"@,
        "generation-iv"@,
        "generation-v"@,
        "generation-vi"@,
        "generation-vii"@,
        "generation-viii"@,
        "generation-ix"@,
    ];
    assert(names[0] == "generation-i"@);
    assert(names[1] == "generation-ii"@);
    assert(names[2] == "generation-iii"@);
    assert(names[3] == "generation-iv"@);
    assert(names[4] == "generation-v"@);
    assert(names[5] == "generation-vi"@);
    assert(names[6] == "generation-vii"@);
    assert(names[7] == "generation-viii"@);
    assert(names[8] == "generation-ix"@);
}

/// The nine generation names differ from one another.
proof fn lemma_generation_names_distinct()
    ensures
        ({
            let names = seq![
                "generation-i"@,
                "generation-ii"@,
                "generation-iii"@,
                "generation-iv"@,
                "generation-v"@,
                "generation-vi"@,
                "generation-vii"@,
                "generation-viii"@,
                "generation-ix"@,
            ];
            forall|a: int, b: int| 0 <= a < b < 9 ==> #[trigger] names[a] != #[trigger] names[b]
        }),
{
    reveal_strlit("generation-i");
    reveal_strlit("generation-ii");
    reveal_strlit("generation-iii");
    reveal_strlit("generation-iv");
    reveal_strlit("generation-v");
    reveal_strlit("generation-vi");
    reveal_strlit("generation-vii");
    reveal_strlit("generation-viii");
    reveal_strlit("generation-ix");
    let names = seq![
        "generation-i"@,
        "generation-ii"@,
        "generation-iii"@,
        "generation-iv"@,
        "generation-v"@,
        "generation-vi"@,
        "generation-vii"@,
        "generation-viii"@,
        "generation-ix"@,
    ];
    assert forall|a: int, b: int| 0 <= a < b < 9 implies #[trigger] names[a] != #[trigger] names[b]
    by {
        if names[a].len() == names[b].len() {
            let k = 11int;
            if names[a][k] == names[b][k] {
                assert(names[a][12] != names[b][12] || names[a].len() > 13 && names[a][13]
                    != names[b][13]);
            }
        }
    }
}

/// A sprite in the versions tree lies under the generation and the version
/// group (the given one, else the generation's default), and is the pokemon's
/// number with `.png`, or `.gif` under `animated/` for an animated request in
/// generation ii crystal or generation v black-white; `shiny/` comes before
/// the number for a shiny request outside generations i and ix, then
/// `female/` for a female request in generations iv to ix.
pub proof fn law_generation_sprite_url_shape(
    id: i64,
    generation: Seq<char>,
    version_group: Option<Seq<char>>,
    shiny: bool,
    female: bool,
    animated: bool,
)
    ensures
        ({
            let version = match version_group {
                Some(v) => v,
                None => spec_default_version_group(generation),
            };
            let anim = animated && ((generation == "generation-ii"@ && version == "crystal"@) || (
            generation == "generation-v"@ && version == "black-white"@));
            let shy = shiny && !(generation == "generation-i"@ || generation == "generation-ix"@);
            let fem = female && (generation == "generation-iv"@ || generation == "generation-v"@
                || generation == "generation-vi"@ || generation == "generation-vii"@ || generation
                == "generation-viii"@ || generation == "generation-ix"@);
            spec_generation_sprite_url(id, generation, version_group, shiny, female, animated)
                == "https://raw.githubusercontent.com/PokeAPI/sprites/master/sprites/pokemon/versions/"@
                + generation + "/"@ + version + "/"@ + (if anim {
                "animated/"@
            } else {
                Seq::<char>::empty()
            }) + (if shy {
                "shiny/"@
            } else {
                Seq::<char>::empty()
            }) + (if fem {
                "female/"@
            } else {
                Seq::<char>::empty()
            }) + int_decimal(id as int) + (if anim {
                ".gif"@
            } else {
                ".png"@
            })
        }),
{
}

// ---------------------------------------------------------------------------
// Talking to the PokeAPI
// ---------------------------------------------------------------------------

/// How a pokemon is looked up: by its number or by its name.
#[derive(Clone, Debug, PartialEq, Eq)]
pub enum PokemonQuery {
    Id(i64),
    Name(String),
}

/// The lookup for what the user typed: by number when it reads as an `i64`,
/// else by name, with the text as it is.
pub fn pokemon_query(query: &str) -> (r: PokemonQuery)
    ensures
        match spec_parse_i64(query@) {
            Some(id) => r == PokemonQuery::Id(id),
            None => r matches PokemonQuery::Name(name) && name@ == query@,
        },
{
    match parse_i64(query) {
        Some(id) => PokemonQuery::Id(id),
        None => {
            let mut name: String = String::new();
            name.append(query);
            assert(name@ =~= query@);
            PokemonQuery::Name(name)
        },
    }
}

/// The name of a pokemon species in one language.
#[derive(Clone, Debug)]
pub struct LocalizedName {
    pub language: String,
    pub name: String,
}

/// The first of `names` that is in English (language `en`).
pub open spec fn spec_english_name(names: Seq<LocalizedName>) -> Option<Seq<char>>
    decreases names.len(),
{
    if names.len() == 0 {
        None
    } else if names[0].language@ == "en"@ {
        Some(names[0].name@)
    } else {
        spec_english_name(names.drop_first())
    }
}

/// The English display name among a species' names, if it has one.
pub fn english_name(names: &Vec<LocalizedName>) -> (r: Option<String>)
    ensures
        opt_view(r) == spec_english_name(names@),
{
    let n: usize = names.len();
    let mut i: usize = 0;
    assert(names@.skip(0) =~= names@);
    while i < n
        invariant
            n == names@.len(),
            i <= n,
            spec_english_name(names@) == spec_english_name(names@.skip(i as int)),
        decreases n - i,
    {
        assert(names@.skip(i as int).drop_first() =~= names@.skip(i + 1));
        if str_eq(names[i].language.as_str(), "en") {
            return Some(names[i].name.clone());
        }
        i += 1;
    }
    None
}

/// The English name is the name of the first entry in English: there is
/// none exactly when no entry is in English, and otherwise it is the name of
/// an English entry before which no entry is in English.
pub proof fn law_english_name_is_first(names: Seq<LocalizedName>)
    ensures
        spec_english_name(names) is None <==> forall|i: int|
            0 <= i < names.len() ==> #[trigger] names[i].language@ != "en"@,
        spec_english_name(names) matches Some(n) ==> exists|i: int|
            0 <= i < names.len() && #[trigger] names[i].language@ == "en"@ && n == names[i].name@
                && forall|j: int| 0 <= j < i ==> #[trigger] names[j].language@ != "en"@,
    decreases names.len(),
{
    if names.len() > 0 {
        let rest = names.drop_first();
        law_english_name_is_first(rest);
        assert forall|i: int| 0 < i < names.len() implies names[i] == #[trigger] rest[i - 1] by {}
        if names[0].language@ == "en"@ {
            assert(names[0].language@ == "en"@);
        } else if spec_english_name(rest) is None {
            assert forall|i: int| 0 <= i < names.len() implies #[trigger] names[i].language@
                != "en"@ by {
                if i > 0 {
                    assert(rest[i - 1].language@ != "en"@);
                }
            }
        } else {
            let n = spec_english_name(rest)->Some_0;
            let k: int = choose|k: int|
                0 <= k < rest.len() && #[trigger] rest[k].language@ == "en"@ && n == rest[k].name@
                    && forall|j: int| 0 <= j < k ==> #[trigger] rest[j].language@ != "en"@;
            assert(names[k + 1] == rest[k]);
            assert forall|j: int| 0 <= j < k + 1 implies #[trigger] names[j].language@ != "en"@ by {
                if j > 0 {
                    assert(names[j] == rest[j - 1]);
                }
            }
            assert(names[k + 1].language@ == "en"@);
        }
    }
}

/// What the checks of a sprite download give: nothing when the response has a
/// success status (200 to 299) and an `image/` content type, else the error
/// shown to users. A missing content type reads as `<unknown>`.
pub open spec fn spec_check_sprite_response(
    url: Seq<char>,
    status_code: u16,
    status_text: Seq<char>,
    content_type: Option<Seq<char>>,
) -> Result<(), Seq<char>> {
    let ct = match content_type {
        Some(c) => c,
        None => "<unknown>"@,
    };
    if !(200 <= status_code < 300) {
        Err(
            "Failed to download sprite '"@ + url + "': HTTP "@ + status_text + " (content-type: "@
                + ct + ")"@,
        )
    } else if !has_prefix(ct, "image/"@) {
        Err("Failed to download sprite '"@ + url + "': expected image content, got '"@ + ct + "'"@)
    } else {
        Ok(())
    }
}

/// Checks the response to a sprite download; `status_text` is how the status
/// is shown (code and reason).
pub fn check_sprite_response(
    url: &str,
    status_code: u16,
    status_text: &str,
    content_type: Option<&str>,
) -> (r: Result<(), String>)
    ensures
        match r {
            Ok(()) => spec_check_sprite_response(
                url@,
                status_code,
                status_text@,
                match content_type {
                    Some(c) => Some(c@),
                    None => None,
                },
            ) == Ok::<(), Seq<char>>(()),
            Err(e) => spec_check_sprite_response(
                url@,
                status_code,
                status_text@,
                match content_type {
                    Some(c) => Some(c@),
                    None => None,
                },
            ) == Err::<(), Seq<char>>(e@),
        },
{
    let ct: &str = match content_type {
        Some(c) => c,
        None => "<unknown>",
    };
    if !(200 <= status_code && status_code < 300) {
        let mut e: String = String::new();
        e.append("Failed to download sprite '");
        e.append(url);
        e.append("': HTTP ");
        e.append(status_text);
        e.append(" (content-type: ");
        e.append(ct);
        e.append(")");
        assert(e@ =~= "Failed to download sprite '"@ + url@ + "': HTTP "@ + status_text@
            + " (content-type: "@ + ct@ + ")"@);
        return Err(e);
    }
    if !starts_with(ct, "image/") {
        let mut e: String = String::new();
        e.append("Failed to download sprite '");
        e.append(url);
        e.append("': expected image content, got '");
        e.append(ct);
        e.append("'");
        assert(e@ =~= "Failed to download sprite '"@ + url@ + "': expected image content, got '"@
            + ct@ + "'"@);
        return Err(e);
    }
    Ok(())
}

/// A sprite download is accepted exactly when its status is a success (200
/// to 299) and it has a content type that starts with `image/`; a failed
/// status is reported with the status and the content type, and otherwise
/// the content type is reported as not an image.
pub proof fn law_sprite_response_accepted(
    url: Seq<char>,
    status_code: u16,
    status_text: Seq<char>,
    content_type: Option<Seq<char>>,
)
    ensures
        ({
            let r = spec_check_sprite_response(url, status_code, status_text, content_type);
            let shown = match content_type {
                Some(c) => c,
                None => "<unknown>"@,
            };
            &&& r is Ok <==> (200 <= status_code < 300 && (content_type matches Some(c)
                && has_prefix(c, "image/"@)))
            &&& !(200 <= status_code < 300) ==> r == Err::<(), Seq<char>>(
                "Failed to download sprite '"@ + url + "': HTTP "@ + status_text
                    + " (content-type: "@ + shown + ")"@,
            )
            &&& (200 <= status_code < 300 && r is Err) ==> r == Err::<(), Seq<char>>(
                "Failed to download sprite '"@ + url + "': expected image content, got '"@ + shown
                    + "'"@,
            )
        }),
{
    reveal_strlit("<unknown>");
    reveal_strlit("image/");
    if content_type is None {
        assert("<unknown>"@.take(6)[0] != "image/"@[0]);
    }
}

// ---------------------------------------------------------------------------
// Decoding a downloaded sprite
// ---------------------------------------------------------------------------

#[verifier::external_type_specification]
#[verifier::external_body]
pub struct ExDynamicImage(image::DynamicImage);

/// Why the image crate could not decode a sprite, with its message: the
/// format could not be read from the bytes, or the image in that format could
/// not be decoded.
#[derive(Debug)]
pub enum ImageDecodeError {
    Format(String),
    Decode(String),
}

/// Whether success (`ok`) or failure is an outcome that the image crate can
/// give when it decodes `bytes`. A relation, not a function: with hooks
/// registered in the process both outcomes may be possible for the same
/// bytes.
pub uninterp spec fn decode_outcome_possible(bytes: Seq<u8>, ok: bool) -> bool;

/// Decodes image bytes whose format is guessed from their content.
///
/// Trusted: `image::ImageReader::new` over a `std::io::Cursor` of the bytes,
/// then `ImageReader::with_guessed_format` and `ImageReader::decode`; the
/// error of each step is kept apart, with its message. The contract claims
/// only that the outcome is one the image crate can give for these bytes
/// ([`decode_outcome_possible`]): besides the bytes, both steps consult
/// format-detection and decoding hooks that any code in the process may
/// register through `image::hooks`, so which outcome comes, which image
/// comes out and the text of an error are left unsaid.
#[verifier::external_body]
fn decode_image_bytes(bytes: Vec<u8>) -> (r: Result<image::DynamicImage, ImageDecodeError>)
    ensures
        decode_outcome_possible(bytes@, r is Ok),
{
    match image::ImageReader::new(std::io::Cursor::new(bytes)).with_guessed_format() {
        Ok(reader) => match reader.decode() {
            Ok(img) => Ok(img),
            Err(e) => Err(ImageDecodeError::Decode(e.to_string())),
        },
        Err(e) => Err(ImageDecodeError::Format(e.to_string())),
    }
}

/// The message for a failed decode step.
pub open spec fn decode_error_text(e: ImageDecodeError) -> Seq<char> {
    match e {
        ImageDecodeError::Format(m) => "Failed to read image format: "@ + m@,
        ImageDecodeError::Decode(m) => "Failed to decode image: "@ + m@,
    }
}

/// The message shown when the sprite downloaded from `url` does not decode.
pub open spec fn sprite_decode_error_text(url: Seq<char>, e: ImageDecodeError) -> Seq<char> {
    "Failed to decode sprite '"@ + url + "': "@ + decode_error_text(e)
}

/// The outcome of decoding the sprite downloaded from `url`: the image, or
/// the error shown to users.
pub fn finish_sprite_download(
    url: &str,
    decoded: Result<image::DynamicImage, ImageDecodeError>,
) -> (r: Result<image::DynamicImage, String>)
    ensures
        decoded is Ok <==> r is Ok,
        decoded matches Ok(img) ==> r == Ok::<image::DynamicImage, String>(img),
        r matches Err(e) ==> decoded matches Err(d) && e@ == sprite_decode_error_text(url@, d),
{
    match decoded {
        Ok(img) => Ok(img),
        Err(d) => {
            let mut e: String = String::new();
            e.append("Failed to decode sprite '");
            e.append(url);
            e.append("': ");
            match &d {
                ImageDecodeError::Format(m) => {
                    e.append("Failed to read image format: ");
                    e.append(m.as_str());
                },
                ImageDecodeError::Decode(m) => {
                    e.append("Failed to decode image: ");
                    e.append(m.as_str());
                },
            }
            assert(e@ =~= sprite_decode_error_text(url@, d));
            Err(e)
        },
    }
}

/// Decodes the sprite bytes downloaded from `url` with the image crate; a
/// failure carries the message that [`finish_sprite_download`] gives. Whether
/// decoding succeeds rests on the image crate and on hooks registered with it
/// in the process, so what is stated is that the outcome is one the image
/// crate can give for `bytes`, and the form of a failure.
pub fn decode_sprite(url: &str, bytes: Vec<u8>) -> (r: Result<image::DynamicImage, String>)
    ensures
        decode_outcome_possible(bytes@, r is Ok),
        r matches Err(e) ==> exists|d: ImageDecodeError| e@ == sprite_decode_error_text(url@, d),
{
    let decoded: Result<image::DynamicImage, ImageDecodeError> = decode_image_bytes(bytes);
    finish_sprite_download(url, decoded)
}

} // verus!
