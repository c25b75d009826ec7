use vstd::prelude::*;
use vstd::string::*;

use crate::config::{
    gender_or_default, opt_view, source_or_default, source_variants_text,
    spec_parse_source, AppConfig, SpriteGender, SpriteRequest, SpriteSource,
};
use crate::text::{has_prefix, lower_ascii, starts_with, str_eq, string_of, to_ascii_lowercase};

verus! {

/// The options given on the command line.
#[derive(Debug)]
pub struct CliOptions {
    pub pokemon_name: String,
    pub shiny: bool,
    pub cache_enabled: bool,
    pub sprite_source: Option<SpriteSource>,
    pub sprite_gender: Option<SpriteGender>,
    pub sprite_generation: Option<String>,
    pub sprite_version_group: Option<String>,
    pub sprite_animated: Option<bool>,
}

/// Command-line options with their strings taken as character sequences.
pub struct CliOptionsView {
    pub pokemon_name: Seq<char>,
    pub shiny: bool,
    pub cache_enabled: bool,
    pub sprite_source: Option<SpriteSource>,
    pub sprite_gender: Option<SpriteGender>,
    pub sprite_generation: Option<Seq<char>>,
    pub sprite_version_group: Option<Seq<char>>,
    pub sprite_animated: Option<bool>,
}

impl View for CliOptions {
    type V = CliOptionsView;

    open spec fn view(&self) -> CliOptionsView {
        CliOptionsView {
            pokemon_name: self.pokemon_name@,
            shiny: self.shiny,
            cache_enabled: self.cache_enabled,
            sprite_source: self.sprite_source,
            sprite_gender: self.sprite_gender,
            sprite_generation: opt_view(self.sprite_generation),
            sprite_version_group: opt_view(self.sprite_version_group),
            sprite_animated: self.sprite_animated,
        }
    }
}

// ---------------------------------------------------------------------------
// Messages
// ---------------------------------------------------------------------------

/// The usage line for the program named `bin`.
pub open spec fn usage_text(bin: Seq<char>) -> Seq<char> {
    "Usage: "@ + bin
        + " <pokemon_name_or_id> [shiny] [-c|--cache] [-s|--sprite-source <"@
        + source_variants_text()
        + ">] [--female|--male] [-g|--generation <i..ix|generation-i..generation-ix>] [--version-group <group>] [--animated]"@
}

pub open spec fn unknown_source_text(value: Seq<char>, bin: Seq<char>) -> Seq<char> {
    "Unknown sprite source '"@ + value + "'. Expected one of: "@ + source_variants_text()
        + ".\n"@ + usage_text(bin)
}

pub open spec fn unknown_generation_text(value: Seq<char>, bin: Seq<char>) -> Seq<char> {
    "Unknown generation '"@ + value
        + "'. Expected one of i..ix or generation-i..generation-ix.\n"@ + usage_text(bin)
}

pub open spec fn missing_version_group_text(bin: Seq<char>) -> Seq<char> {
    "Missing value for --version-group.\n"@ + usage_text(bin)
}

pub open spec fn unknown_flag_text(arg: Seq<char>, bin: Seq<char>) -> Seq<char> {
    "Unknown flag '"@ + arg + "'.\n"@ + usage_text(bin)
}

pub open spec fn unexpected_argument_text(arg: Seq<char>, bin: Seq<char>) -> Seq<char> {
    "Unexpected argument '"@ + arg + "'.\n"@ + usage_text(bin)
}

pub open spec fn missing_value_text(bin: Seq<char>) -> Seq<char> {
    "Missing value for a sprite option.\n"@ + usage_text(bin)
}

impl CliOptions {
    /// The usage line for the program named `bin_name`.
    pub fn usage(bin_name: &str) -> (r: String)
        ensures
            r@ == usage_text(bin_name@),
    {
        let mut s: String = String::new();
        s.append("Usage: ");
        s.append(bin_name);
        s.append(" <pokemon_name_or_id> [shiny] [-c|--cache] [-s|--sprite-source <");
        s.append(SpriteSource::variants());
        s.append(
            ">] [--female|--male] [-g|--generation <i..ix|generation-i..generation-ix>] [--version-group <group>] [--animated]",
        );
        assert(s@ =~= usage_text(bin_name@));
        s
    }
}

/// `prefix`, then `middle`, then `suffix`, then the usage line.
fn framed_error(prefix: &str, middle: &str, suffix: &str, bin_name: &str) -> (r: String)
    ensures
        r@ == prefix@ + middle@ + suffix@ + usage_text(bin_name@),
{
    let mut s: String = String::new();
    s.append(prefix);
    s.append(middle);
    s.append(suffix);
    let u: String = CliOptions::usage(bin_name);
    s.append(u.as_str());
    assert(s@ =~= prefix@ + middle@ + suffix@ + usage_text(bin_name@));
    s
}

// ---------------------------------------------------------------------------
// Option values
// ---------------------------------------------------------------------------

/// What a sprite source value gives: the source, or the error shown to users.
pub open spec fn spec_parse_sprite_source(value: Seq<char>, bin: Seq<char>) -> Result<
    SpriteSource,
    Seq<char>,
> {
    match spec_parse_source(value) {
        Some(s) => Ok(s),
        None => Err(unknown_source_text(value, bin)),
    }
}

/// Reads the value of `--sprite-source`.
pub fn parse_sprite_source(value: &str, bin_name: &str) -> (r: Result<SpriteSource, String>)
    ensures
        match r {
            Ok(s) => spec_parse_sprite_source(value@, bin_name@) == Ok::<SpriteSource, Seq<char>>(s),
            Err(e) => spec_parse_sprite_source(value@, bin_name@) == Err::<SpriteSource, Seq<char>>(e@),
        },
{
    match SpriteSource::parse(value) {
        Some(s) => Ok(s),
        None => {
            let mut middle: String = String::new();
            middle.append(value);
            middle.append("'. Expected one of: ");
            middle.append(SpriteSource::variants());
            let e: String = framed_error("Unknown sprite source '", middle.as_str(), ".\n", bin_name);
            assert(e@ =~= unknown_source_text(value@, bin_name@));
            Err(e)
        },
    }
}

/// The Roman numerals of the generations, `i` through `ix`.
pub open spec fn is_generation_numeral(s: Seq<char>) -> bool {
    ||| s == "i"@
    ||| s == "ii"@
    ||| s == "iii"@
    ||| s == "iv"@
    ||| s == "v"@
    ||| s == "vi"@
    ||| s == "vii"@
    ||| s == "viii"@
    ||| s == "ix"@
}

/// What remains of a generation value once it is lower-cased and a leading
/// `generation-` is taken off.
pub open spec fn generation_suffix(value: Seq<char>) -> Seq<char> {
    let normalized = lower_ascii(value);
    if has_prefix(normalized, "generation-"@) {
        normalized.skip("generation-"@.len() as int)
    } else {
        normalized
    }
}

/// What a generation value gives: `generation-<numeral>`, or the error shown
/// to users. Case is ignored and the `generation-` prefix is optional.
pub open spec fn spec_parse_generation(value: Seq<char>, bin: Seq<char>) -> Result<
    Seq<char>,
    Seq<char>,
> {
    let suffix = generation_suffix(value);
    if is_generation_numeral(suffix) {
        Ok("generation-"@ + suffix)
    } else {
        Err(unknown_generation_text(value, bin))
    }
}

fn is_numeral(s: &str) -> (r: bool)
    ensures
        r == is_generation_numeral(s@),
{
    str_eq(s, "i") || str_eq(s, "ii") || str_eq(s, "iii") || str_eq(s, "iv") || str_eq(s, "v")
        || str_eq(s, "vi") || str_eq(s, "vii") || str_eq(s, "viii") || str_eq(s, "ix")
}

/// Reads the value of `--generation`.
pub fn parse_generation(value: &str, bin_name: &str) -> (r: Result<String, String>)
    ensures
        match r {
            Ok(g) => spec_parse_generation(value@, bin_name@) == Ok::<Seq<char>, Seq<char>>(g@),
            Err(e) => spec_parse_generation(value@, bin_name@) == Err::<Seq<char>, Seq<char>>(e@),
        },
{
    let normalized: String = to_ascii_lowercase(value);
    let norm: &str = normalized.as_str();
    let prefix: &str = "generation-";
    let suffix: &str = if starts_with(norm, prefix) {
        let k: usize = prefix.unicode_len();
        let n: usize = norm.unicode_len();
        let t: &str = norm.substring_char(k, n);
        assert(t@ =~= norm@.skip(prefix@.len() as int));
        t
    } else {
        norm
    };
    assert(suffix@ == generation_suffix(value@));
    if is_numeral(suffix) {
        let mut g: String = String::new();
        g.append(prefix);
        g.append(suffix);
        assert(g@ =~= "generation-"@ + suffix@);
        Ok(g)
    } else {
        let e: String = framed_error(
            "Unknown generation '",
            value,
            "'. Expected one of i..ix or generation-i..generation-ix.\n",
            bin_name,
        );
        Err(e)
    }
}

// ---------------------------------------------------------------------------
// The argument list
// ---------------------------------------------------------------------------

/// The option, if any, whose value the next argument is.
#[derive(Clone, Copy, Debug, PartialEq, Eq, Structural)]
pub enum PendingValue {
    Nothing,
    SpriteSource,
    Generation,
    VersionGroup,
}

/// What the arguments read so far have set.
pub struct ArgsState {
    pub pokemon_name: Option<Seq<char>>,
    pub shiny: bool,
    pub cache_enabled: bool,
    pub sprite_source: Option<SpriteSource>,
    pub sprite_gender: Option<SpriteGender>,
    pub sprite_generation: Option<Seq<char>>,
    pub sprite_version_group: Option<Seq<char>>,
    pub sprite_animated: Option<bool>,
    pub pending: PendingValue,
}

/// Nothing read yet.
pub open spec fn initial_args_state() -> ArgsState {
    ArgsState {
        pokemon_name: None,
        shiny: false,
        cache_enabled: false,
        sprite_source: None,
        sprite_gender: None,
        sprite_generation: None,
        sprite_version_group: None,
        sprite_animated: None,
        pending: PendingValue::Nothing,
    }
}

/// What one argument does when it is not the value of an option.
pub open spec fn step_flag(st: ArgsState, arg: Seq<char>, bin: Seq<char>) -> Result<
    ArgsState,
    Seq<char>,
> {
    if arg == "-c"@ || arg == "--cache"@ {
        Ok(ArgsState { cache_enabled: true, ..st })
    } else if arg == "-s"@ || arg == "--sprite-source"@ {
        Ok(ArgsState { pending: PendingValue::SpriteSource, ..st })
    } else if arg == "--female"@ {
        Ok(ArgsState { sprite_gender: Some(SpriteGender::Female), ..st })
    } else if arg == "--male"@ {
        Ok(ArgsState { sprite_gender: Some(SpriteGender::Default), ..st })
    } else if arg == "-g"@ || arg == "--generation"@ {
        Ok(ArgsState { pending: PendingValue::Generation, ..st })
    } else if arg == "--version-group"@ {
        Ok(ArgsState { pending: PendingValue::VersionGroup, ..st })
    } else if arg == "--animated"@ {
        Ok(ArgsState { sprite_animated: Some(true), ..st })
    } else if arg == "shiny"@ && st.pokemon_name is Some {
        Ok(ArgsState { shiny: true, ..st })
    } else if has_prefix(arg, "--sprite-source="@) {
        match spec_parse_sprite_source(arg.skip("--sprite-source="@.len() as int), bin) {
            Ok(s) => Ok(ArgsState { sprite_source: Some(s), ..st }),
            Err(e) => Err(e),
        }
    } else if has_prefix(arg, "--generation="@) {
        match spec_parse_generation(arg.skip("--generation="@.len() as int), bin) {
            Ok(g) => Ok(ArgsState { sprite_generation: Some(g), ..st }),
            Err(e) => Err(e),
        }
    } else if has_prefix(arg, "--version-group="@) {
        let value = arg.skip("--version-group="@.len() as int);
        if value.len() == 0 {
            Err(missing_version_group_text(bin))
        } else {
            Ok(ArgsState { sprite_version_group: Some(value), ..st })
        }
    } else if has_prefix(arg, "-"@) {
        Err(unknown_flag_text(arg, bin))
    } else if st.pokemon_name is None {
        Ok(ArgsState { pokemon_name: Some(arg), ..st })
    } else {
        Err(unexpected_argument_text(arg, bin))
    }
}

/// What one argument does: it is the value of the pending option if there is
/// one, else a flag, an option or the pokemon name.
pub open spec fn step_arg(st: ArgsState, arg: Seq<char>, bin: Seq<char>) -> Result<
    ArgsState,
    Seq<char>,
> {
    match st.pending {
        PendingValue::SpriteSource => match spec_parse_sprite_source(arg, bin) {
            Ok(s) => Ok(ArgsState { sprite_source: Some(s), pending: PendingValue::Nothing, ..st }),
            Err(e) => Err(e),
        },
        PendingValue::Generation => match spec_parse_generation(arg, bin) {
            Ok(g) => Ok(
                ArgsState { sprite_generation: Some(g), pending: PendingValue::Nothing, ..st },
            ),
            Err(e) => Err(e),
        },
        PendingValue::VersionGroup => if arg.len() == 0 {
            Err(missing_version_group_text(bin))
        } else {
            Ok(ArgsState { sprite_version_group: Some(arg), pending: PendingValue::Nothing, ..st })
        },
        PendingValue::Nothing => step_flag(st, arg, bin),
    }
}

/// Reads `args` in order from `st`, stopping at the first error.
pub open spec fn read_args(st: ArgsState, args: Seq<Seq<char>>, bin: Seq<char>) -> Result<
    ArgsState,
    Seq<char>,
>
    decreases args.len(),
{
    if args.len() == 0 {
        Ok(st)
    } else {
        match step_arg(st, args[0], bin) {
            Ok(next) => read_args(next, args.drop_first(), bin),
            Err(e) => Err(e),
        }
    }
}

/// The program name: the first argument, or `ferrisdex` when there is none.
pub open spec fn bin_name_of(args: Seq<Seq<char>>) -> Seq<char> {
    if args.len() > 0 {
        args[0]
    } else {
        "ferrisdex"@
    }
}

/// The arguments after the program name.
pub open spec fn options_of(args: Seq<Seq<char>>) -> Seq<Seq<char>> {
    if args.len() > 0 {
        args.drop_first()
    } else {
        args
    }
}

/// The options of a finished reading.
pub open spec fn options_from_state(st: ArgsState, name: Seq<char>) -> CliOptionsView {
    CliOptionsView {
        pokemon_name: name,
        shiny: st.shiny,
        cache_enabled: st.cache_enabled,
        sprite_source: st.sprite_source,
        sprite_gender: st.sprite_gender,
        sprite_generation: st.sprite_generation,
        sprite_version_group: st.sprite_version_group,
        sprite_animated: st.sprite_animated,
    }
}

/// What a whole command line gives: the options, or the error shown to users.
/// An option still waiting for its value at the end, or a missing pokemon
/// name, is an error.
pub open spec fn spec_parse_args(args: Seq<Seq<char>>) -> Result<CliOptionsView, Seq<char>> {
    let bin = bin_name_of(args);
    match read_args(initial_args_state(), options_of(args), bin) {
        Err(e) => Err(e),
        Ok(st) => if st.pending != PendingValue::Nothing {
            Err(missing_value_text(bin))
        } else {
            match st.pokemon_name {
                None => Err(usage_text(bin)),
                Some(name) => Ok(options_from_state(st, name)),
            }
        },
    }
}

/// The characters of each argument.
pub open spec fn arg_views(args: Seq<String>) -> Seq<Seq<char>> {
    args.map_values(|a: String| a@)
}

/// The options or error of a parse, with strings taken as characters.
pub open spec fn parse_result_view(r: Result<CliOptions, String>) -> Result<
    CliOptionsView,
    Seq<char>,
> {
    match r {
        Ok(o) => Ok(o@),
        Err(e) => Err(e@),
    }
}

/// The reading in progress.
struct ArgsParser {
    pokemon_name: Option<String>,
    shiny: bool,
    cache_enabled: bool,
    sprite_source: Option<SpriteSource>,
    sprite_gender: Option<SpriteGender>,
    sprite_generation: Option<String>,
    sprite_version_group: Option<String>,
    sprite_animated: Option<bool>,
    pending: PendingValue,
}

spec fn parser_view(p: ArgsParser) -> ArgsState {
    ArgsState {
        pokemon_name: opt_view(p.pokemon_name),
        shiny: p.shiny,
        cache_enabled: p.cache_enabled,
        sprite_source: p.sprite_source,
        sprite_gender: p.sprite_gender,
        sprite_generation: opt_view(p.sprite_generation),
        sprite_version_group: opt_view(p.sprite_version_group),
        sprite_animated: p.sprite_animated,
        pending: p.pending,
    }
}

spec fn step_matches(r: Result<ArgsParser, String>, s: Result<ArgsState, Seq<char>>) -> bool {
    match r {
        Ok(p) => s == Ok::<ArgsState, Seq<char>>(parser_view(p)),
        Err(e) => s == Err::<ArgsState, Seq<char>>(e@),
    }
}


fn missing_version_group_error(bin: &str) -> (r: String)
    ensures
        r@ == missing_version_group_text(bin@),
{
    let mut s: String = String::new();
    s.append("Missing value for --version-group.\n");
    let u: String = CliOptions::usage(bin);
    s.append(u.as_str());
    assert(s@ =~= missing_version_group_text(bin@));
    s
}

/// The part of `arg` after the first `k` characters.
fn tail_from(arg: &str, k: usize) -> (r: String)
    requires
        k <= arg@.len(),
    ensures
        r@ == arg@.skip(k as int),
{
    let n: usize = arg.unicode_len();
    let t: &str = arg.substring_char(k, n);
    assert(t@ =~= arg@.skip(k as int));
    string_of(t)
}

fn apply_flag(p: ArgsParser, arg: &str, bin: &str) -> (r: Result<ArgsParser, String>)
    requires
        p.pending == PendingValue::Nothing,
    ensures
        step_matches(r, step_flag(parser_view(p), arg@, bin@)),
{
    let mut p = p;
    if str_eq(arg, "-c") || str_eq(arg, "--cache") {
        p.cache_enabled = true;
        Ok(p)
    } else if str_eq(arg, "-s") || str_eq(arg, "--sprite-source") {
        p.pending = PendingValue::SpriteSource;
        Ok(p)
    } else if str_eq(arg, "--female") {
        p.sprite_gender = Some(SpriteGender::Female);
        Ok(p)
    } else if str_eq(arg, "--male") {
        p.sprite_gender = Some(SpriteGender::Default);
        Ok(p)
    } else if str_eq(arg, "-g") || str_eq(arg, "--generation") {
        p.pending = PendingValue::Generation;
        Ok(p)
    } else if str_eq(arg, "--version-group") {
        p.pending = PendingValue::VersionGroup;
        Ok(p)
    } else if str_eq(arg, "--animated") {
        p.sprite_animated = Some(true);
        Ok(p)
    } else if str_eq(arg, "shiny") && p.pokemon_name.is_some() {
        p.shiny = true;
        Ok(p)
    } else if starts_with(arg, "--sprite-source=") {
        let value: String = tail_from(arg, "--sprite-source=".unicode_len());
        match parse_sprite_source(value.as_str(), bin) {
            Ok(s) => {
                p.sprite_source = Some(s);
                Ok(p)
            },
            Err(e) => Err(e),
        }
    } else if starts_with(arg, "--generation=") {
        let value: String = tail_from(arg, "--generation=".unicode_len());
        match parse_generation(value.as_str(), bin) {
            Ok(g) => {
                p.sprite_generation = Some(g);
                Ok(p)
            },
            Err(e) => Err(e),
        }
    } else if starts_with(arg, "--version-group=") {
        let value: String = tail_from(arg, "--version-group=".unicode_len());
        if value.as_str().unicode_len() == 0 {
            Err(missing_version_group_error(bin))
        } else {
            p.sprite_version_group = Some(value);
            Ok(p)
        }
    } else if starts_with(arg, "-") {
        Err(framed_error("Unknown flag '", arg, "'.\n", bin))
    } else if p.pokemon_name.is_none() {
        p.pokemon_name = Some(string_of(arg));
        Ok(p)
    } else {
        Err(framed_error("Unexpected argument '", arg, "'.\n", bin))
    }
}

fn apply_arg(p: ArgsParser, arg: &str, bin: &str) -> (r: Result<ArgsParser, String>)
    ensures
        step_matches(r, step_arg(parser_view(p), arg@, bin@)),
{
    let mut p = p;
    match p.pending {
        PendingValue::SpriteSource => match parse_sprite_source(arg, bin) {
            Ok(s) => {
                p.sprite_source = Some(s);
                p.pending = PendingValue::Nothing;
                Ok(p)
            },
            Err(e) => Err(e),
        },
        PendingValue::Generation => match parse_generation(arg, bin) {
            Ok(g) => {
                p.sprite_generation = Some(g);
                p.pending = PendingValue::Nothing;
                Ok(p)
            },
            Err(e) => Err(e),
        },
        PendingValue::VersionGroup => {
            if arg.unicode_len() == 0 {
                Err(missing_version_group_error(bin))
            } else {
                p.sprite_version_group = Some(string_of(arg));
                p.pending = PendingValue::Nothing;
                Ok(p)
            }
        },
        PendingValue::Nothing => apply_flag(p, arg, bin),
    }
}

/// Reading `args[i..]` from `st`, once the first argument is read.
proof fn lemma_read_args_step(st: ArgsState, args: Seq<Seq<char>>, i: int, bin: Seq<char>)
    requires
        0 <= i < args.len(),
    ensures
        read_args(st, args.skip(i), bin) == match step_arg(st, args[i], bin) {
            Ok(next) => read_args(next, args.skip(i + 1), bin),
            Err(e) => Err(e),
        },
{
    assert(args.skip(i).drop_first() =~= args.skip(i + 1));
}

/// Reads the command line: the first argument is the program name, the rest
/// are flags, options with their values, `shiny` and the pokemon name or id.
/// A later flag of the same kind overrides an earlier one.
pub fn parse_args(args: Vec<String>) -> (r: Result<CliOptions, String>)
    ensures
        parse_result_view(r) == spec_parse_args(arg_views(args@)),
{
    let ghost views = arg_views(args@);
    let n: usize = args.len();
    let bin: String = if n > 0 {
        args[0].clone()
    } else {
        string_of("ferrisdex")
    };
    assert(bin@ == bin_name_of(views));
    let mut p = ArgsParser {
        pokemon_name: None,
        shiny: false,
        cache_enabled: false,
        sprite_source: None,
        sprite_gender: None,
        sprite_generation: None,
        sprite_version_group: None,
        sprite_animated: None,
        pending: PendingValue::Nothing,
    };
    let ghost rest = options_of(views);
    proof {
        if n > 0 {
            assert(rest =~= views.skip(1));
        } else {
            assert(rest =~= views.skip(0));
        }
    }
    let mut i: usize = if n > 0 { 1 } else { 0 };
    while i < n
        invariant
            n == args@.len(),
            views == arg_views(args@),
            bin@ == bin_name_of(views),
            rest == options_of(views),
            0 < i <= n || (i == 0 && n == 0),
            read_args(initial_args_state(), rest, bin@) == read_args(
                parser_view(p),
                views.skip(i as int),
                bin@,
            ),
        decreases n - i,
    {
        proof {
            lemma_read_args_step(parser_view(p), views, i as int, bin@);
        }
        let arg: &String = &args[i];
        assert(arg@ == views[i as int]);
        let step: Result<ArgsParser, String> = apply_arg(p, arg.as_str(), bin.as_str());
        match step {
            Ok(next) => {
                p = next;
            },
            Err(e) => {
                assert(read_args(initial_args_state(), rest, bin@) == Err::<ArgsState, Seq<char>>(e@));
                assert(bin_name_of(views) == bin@);
                assert(options_of(views) == rest);
                return Err(e);
            },
        }
        i += 1;
    }
    assert(views.skip(n as int) =~= Seq::<Seq<char>>::empty());
    match p.pending {
        PendingValue::Nothing => {},
        _ => {
            let mut s: String = String::new();
            s.append("Missing value for a sprite option.\n");
            let u: String = CliOptions::usage(bin.as_str());
            s.append(u.as_str());
            assert(s@ =~= missing_value_text(bin@));
            return Err(s);
        },
    }
    match p.pokemon_name {
        None => Err(CliOptions::usage(bin.as_str())),
        Some(pokemon_name) => Ok(
            CliOptions {
                pokemon_name,
                shiny: p.shiny,
                cache_enabled: p.cache_enabled,
                sprite_source: p.sprite_source,
                sprite_gender: p.sprite_gender,
                sprite_generation: p.sprite_generation,
                sprite_version_group: p.sprite_version_group,
                sprite_animated: p.sprite_animated,
            },
        ),
    }
}

// ---------------------------------------------------------------------------
// Combining the command line with the configuration file
// ---------------------------------------------------------------------------

/// Whether the HTTP cache is used: when the command line or the
/// configuration file turns it on.
pub fn cache_enabled(cli: &CliOptions, config: &AppConfig) -> (r: bool)
    ensures
        r == (cli.cache_enabled || config.cache_enabled),
{
    cli.cache_enabled || config.cache_enabled
}

/// The sprite request for a run: each sprite setting given on the command line
/// overrides the configuration file, which in turn overrides the defaults.
pub fn resolve_sprite_request(cli: &CliOptions, config: &AppConfig) -> (r: SpriteRequest)
    ensures
        r.source == match cli.sprite_source {
            Some(s) => s,
            None => source_or_default(config.sprite_source),
        },
        r.shiny == cli.shiny,
        r.gender == match cli.sprite_gender {
            Some(g) => g,
            None => gender_or_default(config.sprite_gender),
        },
        r.generation == match cli.sprite_generation {
            Some(g) => Some(g),
            None => config.sprite_generation,
        },
        r.version_group == match cli.sprite_version_group {
            Some(v) => Some(v),
            None => config.sprite_version_group,
        },
        r.animated == match cli.sprite_animated {
            Some(a) => a,
            None => config.sprite_animated == Some(true),
        },
{
    let mut request: SpriteRequest = config.default_sprite_request(cli.shiny);
    if let Some(source) = cli.sprite_source {
        request.source = source;
    }
    if let Some(gender) = cli.sprite_gender {
        request.gender = gender;
    }
    if let Some(generation) = &cli.sprite_generation {
        request.generation = Some(generation.clone());
    }
    if let Some(version_group) = &cli.sprite_version_group {
        request.version_group = Some(version_group.clone());
    }
    if let Some(animated) = cli.sprite_animated {
        request.animated = animated;
    }
    request
}

// ---------------------------------------------------------------------------
// Laws of the command line
// ---------------------------------------------------------------------------

/// Reading one more argument continues from where the others left off.
pub proof fn lemma_read_args_push(st: ArgsState, xs: Seq<Seq<char>>, x: Seq<char>, bin: Seq<char>)
    ensures
        read_args(st, xs.push(x), bin) == match read_args(st, xs, bin) {
            Ok(s) => step_arg(s, x, bin),
            Err(e) => Err(e),
        },
    decreases xs.len(),
{
    if xs.len() == 0 {
        reveal_with_fuel(read_args, 2);
        assert(xs.push(x).drop_first() =~= Seq::<Seq<char>>::empty());
        assert(xs.push(x)[0] == x);
    } else {
        assert(xs.push(x).drop_first() =~= xs.drop_first().push(x));
        assert(xs.push(x)[0] == xs[0]);
        match step_arg(st, xs[0], bin) {
            Ok(next) => lemma_read_args_push(next, xs.drop_first(), x, bin),
            Err(_) => {},
        }
    }
}

/// Where the reading of `args` leaves no option waiting for its value.
pub open spec fn nothing_pending_after(args: Seq<Seq<char>>) -> bool {
    match read_args(initial_args_state(), options_of(args), bin_name_of(args)) {
        Ok(st) => st.pending == PendingValue::Nothing,
        Err(_) => true,
    }
}

/// The gender that a gender flag selects.
pub open spec fn gender_of_flag(flag: Seq<char>) -> SpriteGender {
    if flag == "--female"@ {
        SpriteGender::Female
    } else {
        SpriteGender::Default
    }
}

proof fn lemma_push_parts(args: Seq<Seq<char>>, x: Seq<char>)
    requires
        args.len() > 0,
    ensures
        options_of(args.push(x)) == options_of(args).push(x),
        bin_name_of(args.push(x)) == bin_name_of(args),
{
    assert(args.push(x).drop_first() =~= args.drop_first().push(x));
}

/// The last gender flag decides: appending `--female` or `--male` to a
/// command line (not as the value of an option) changes only the gender of
/// what it gives.
pub proof fn law_last_gender_flag_wins(args: Seq<Seq<char>>, flag: Seq<char>)
    requires
        args.len() > 0,
        flag == "--female"@ || flag == "--male"@,
        nothing_pending_after(args),
    ensures
        spec_parse_args(args.push(flag)) == match spec_parse_args(args) {
            Ok(o) => Ok(CliOptionsView { sprite_gender: Some(gender_of_flag(flag)), ..o }),
            Err(e) => Err(e),
        },
{
    reveal_strlit("--female");
    reveal_strlit("--male");
    reveal_strlit("-c");
    reveal_strlit("--cache");
    reveal_strlit("-s");
    reveal_strlit("--sprite-source");
    lemma_push_parts(args, flag);
    lemma_read_args_push(initial_args_state(), options_of(args), flag, bin_name_of(args));
}

/// The last generation given decides: appending `-g` and a valid generation
/// to a command line (not as the value of an option) changes only the
/// generation of what it gives.
pub proof fn law_last_generation_wins(args: Seq<Seq<char>>, value: Seq<char>)
    requires
        args.len() > 0,
        nothing_pending_after(args),
        spec_parse_generation(value, bin_name_of(args)) is Ok,
    ensures
        spec_parse_args(args.push("-g"@).push(value)) == match spec_parse_args(args) {
            Ok(o) => Ok(
                CliOptionsView {
                    sprite_generation: Some(
                        spec_parse_generation(value, bin_name_of(args))->Ok_0,
                    ),
                    ..o
                },
            ),
            Err(e) => Err(e),
        },
{
    reveal_strlit("-g");
    reveal_strlit("-c");
    reveal_strlit("--cache");
    reveal_strlit("-s");
    reveal_strlit("--sprite-source");
    reveal_strlit("--female");
    reveal_strlit("--male");
    assert("-g"@[1] != "-c"@[1]);
    assert("-g"@[1] != "-s"@[1]);
    let bin = bin_name_of(args);
    lemma_push_parts(args, "-g"@);
    lemma_push_parts(args.push("-g"@), value);
    lemma_read_args_push(initial_args_state(), options_of(args), "-g"@, bin);
    lemma_read_args_push(initial_args_state(), options_of(args).push("-g"@), value, bin);
}

/// A string with no ASCII capital letter is unchanged by lower-casing.
proof fn lemma_lower_no_capitals(s: Seq<char>)
    requires
        forall|i: int| 0 <= i < s.len() ==> !('A' <= #[trigger] s[i] && s[i] <= 'Z'),
    ensures
        lower_ascii(s) == s,
{
    assert(lower_ascii(s) =~= s);
}


/// A generation that was accepted is accepted again as itself: reading the
/// canonical `generation-<numeral>` form gives that same form back.
pub proof fn law_generation_canonical(value: Seq<char>, bin: Seq<char>, other_bin: Seq<char>)
    requires
        spec_parse_generation(value, bin) is Ok,
    ensures
        spec_parse_generation(spec_parse_generation(value, bin)->Ok_0, other_bin)
            == spec_parse_generation(value, bin),
{
    let prefix = "generation-"@;
    let suffix = generation_suffix(value);
    let g = prefix + suffix;
    reveal_strlit("generation-");
    reveal_strlit("i");
    reveal_strlit("ii");
    reveal_strlit("iii");
    reveal_strlit("iv");
    reveal_strlit("v");
    reveal_strlit("vi");
    reveal_strlit("vii");
    reveal_strlit("viii");
    reveal_strlit("ix");
    assert forall|i: int| 0 <= i < g.len() implies !('A' <= #[trigger] g[i] && g[i] <= 'Z') by {
        if i < prefix.len() {
            assert(g[i] == prefix[i]);
        } else {
            assert(g[i] == suffix[i - prefix.len()]);
        }
    }
    lemma_lower_no_capitals(g);
    assert(g.take(prefix.len() as int) =~= prefix);
    assert(g.skip(prefix.len() as int) =~= suffix);
    assert(generation_suffix(g) == suffix);
}

/// Reading `xs` followed by `ys` reads `xs`, then `ys` from where it left off.
pub proof fn lemma_read_args_concat(
    st: ArgsState,
    xs: Seq<Seq<char>>,
    ys: Seq<Seq<char>>,
    bin: Seq<char>,
)
    ensures
        read_args(st, xs + ys, bin) == match read_args(st, xs, bin) {
            Ok(s) => read_args(s, ys, bin),
            Err(e) => Err(e),
        },
    decreases xs.len(),
{
    if xs.len() == 0 {
        assert(xs + ys =~= ys);
    } else {
        assert((xs + ys).drop_first() =~= xs.drop_first() + ys);
        assert((xs + ys)[0] == xs[0]);
        match step_arg(st, xs[0], bin) {
            Ok(next) => lemma_read_args_concat(next, xs.drop_first(), ys, bin),
            Err(_) => {},
        }
    }
}

/// Two runs of arguments that read alike from where `pre` leaves off give
/// the same command line result, whatever follows them.
proof fn lemma_same_reading(
    pre: Seq<Seq<char>>,
    m1: Seq<Seq<char>>,
    m2: Seq<Seq<char>>,
    q: Seq<Seq<char>>,
)
    requires
        pre.len() > 0,
        match read_args(initial_args_state(), options_of(pre), bin_name_of(pre)) {
            Ok(s) => read_args(s, m1, bin_name_of(pre)) == read_args(s, m2, bin_name_of(pre)),
            Err(_) => true,
        },
    ensures
        spec_parse_args(pre + m1 + q) == spec_parse_args(pre + m2 + q),
{
    let bin = bin_name_of(pre);
    let opts = options_of(pre);
    assert(options_of(pre + m1 + q) =~= opts + (m1 + q));
    assert(options_of(pre + m2 + q) =~= opts + (m2 + q));
    assert(bin_name_of(pre + m1 + q) == bin);
    assert(bin_name_of(pre + m2 + q) == bin);
    lemma_read_args_concat(initial_args_state(), opts, m1 + q, bin);
    lemma_read_args_concat(initial_args_state(), opts, m2 + q, bin);
    match read_args(initial_args_state(), opts, bin) {
        Ok(s) => {
            lemma_read_args_concat(s, m1, q, bin);
            lemma_read_args_concat(s, m2, q, bin);
        },
        Err(_) => {},
    }
}

/// The literal flags that a joined `--option=value` argument is tested
/// against before its own prefix, all shorter than `--sprite-source=`.
proof fn lemma_flag_literals()
    ensures
        "-c"@.len() == 2,
        "--cache"@.len() == 7,
        "-s"@.len() == 2,
        "--sprite-source"@.len() == 15,
        "--female"@.len() == 8,
        "--male"@.len() == 6,
        "-g"@.len() == 2,
        "--generation"@.len() == 12,
        "--version-group"@.len() == 15,
        "--animated"@.len() == 10,
        "shiny"@.len() == 5,
        "--sprite-source="@.len() == 16,
        "--generation="@.len() == 13,
        "--version-group="@.len() == 16,
        "-s"@[1] == 's',
        "-c"@[1] == 'c',
        "-g"@[1] == 'g',
        "--sprite-source"@[2] == 's',
        "--version-group"@[2] == 'v',
        "--sprite-source="@[2] == 's',
        "--generation="@[2] == 'g',
        "--version-group="@[2] == 'v',
{
    reveal_strlit("-c");
    reveal_strlit("--cache");
    reveal_strlit("-s");
    reveal_strlit("--sprite-source");
    reveal_strlit("--female");
    reveal_strlit("--male");
    reveal_strlit("-g");
    reveal_strlit("--generation");
    reveal_strlit("--version-group");
    reveal_strlit("--animated");
    reveal_strlit("shiny");
    reveal_strlit("--sprite-source=");
    reveal_strlit("--generation=");
    reveal_strlit("--version-group=");
}

/// `prefix + value`, with the prefix read back off.
proof fn lemma_joined(prefix: Seq<char>, value: Seq<char>)
    ensures
        has_prefix(prefix + value, prefix),
        (prefix + value).skip(prefix.len() as int) == value,
        (prefix + value).len() == prefix.len() + value.len(),
        forall|i: int| 0 <= i < prefix.len() ==> #[trigger] (prefix + value)[i] == prefix[i],
{
    assert((prefix + value).take(prefix.len() as int) =~= prefix);
    assert((prefix + value).skip(prefix.len() as int) =~= value);
}

/// `-s v` and `--sprite-source v` read as `--sprite-source=v`.
proof fn lemma_sprite_source_forms(st: ArgsState, flag: Seq<char>, v: Seq<char>, bin: Seq<char>)
    requires
        st.pending == PendingValue::Nothing,
        flag == "-s"@ || flag == "--sprite-source"@,
    ensures
        read_args(st, seq![flag, v], bin) == read_args(st, seq!["--sprite-source="@ + v], bin),
{
    reveal_with_fuel(read_args, 3);
    lemma_flag_literals();
    lemma_joined("--sprite-source="@, v);
    assert(seq![flag, v].drop_first() =~= seq![v]);
    assert(seq![v].drop_first() =~= Seq::<Seq<char>>::empty());
    assert(seq!["--sprite-source="@ + v].drop_first() =~= Seq::<Seq<char>>::empty());
}

/// `-g v` and `--generation v` read as `--generation=v`.
proof fn lemma_generation_forms(st: ArgsState, flag: Seq<char>, v: Seq<char>, bin: Seq<char>)
    requires
        st.pending == PendingValue::Nothing,
        flag == "-g"@ || flag == "--generation"@,
    ensures
        read_args(st, seq![flag, v], bin) == read_args(st, seq!["--generation="@ + v], bin),
{
    reveal_with_fuel(read_args, 3);
    lemma_flag_literals();
    let j = "--generation="@ + v;
    lemma_joined("--generation="@, v);
    assert(j[2] == 'g');
    if j.len() >= 16 {
        assert(j.take(16)[2] == 'g');
        assert(!has_prefix(j, "--sprite-source="@)) by {
            if has_prefix(j, "--sprite-source="@) {
                assert(j.take(16)[2] == "--sprite-source="@[2]);
            }
        }
    }
    assert(j != "--sprite-source"@) by {
        if j == "--sprite-source"@ {
            assert(j[2] == "--sprite-source"@[2]);
        }
    }
    assert(j != "--version-group"@) by {
        if j == "--version-group"@ {
            assert(j[2] == "--version-group"@[2]);
        }
    }
    assert(seq![flag, v].drop_first() =~= seq![v]);
    assert(seq![v].drop_first() =~= Seq::<Seq<char>>::empty());
    assert(seq![j].drop_first() =~= Seq::<Seq<char>>::empty());
}

/// `--version-group v` reads as `--version-group=v`.
proof fn lemma_version_group_forms(st: ArgsState, v: Seq<char>, bin: Seq<char>)
    requires
        st.pending == PendingValue::Nothing,
    ensures
        read_args(st, seq!["--version-group"@, v], bin) == read_args(
            st,
            seq!["--version-group="@ + v],
            bin,
        ),
{
    reveal_with_fuel(read_args, 3);
    lemma_flag_literals();
    let j = "--version-group="@ + v;
    lemma_joined("--version-group="@, v);
    assert(j[2] == 'v');
    assert(j.take(16)[2] == 'v');
    assert(j.take(13)[2] == 'v');
    assert(!has_prefix(j, "--sprite-source="@)) by {
        if has_prefix(j, "--sprite-source="@) {
            assert(j.take(16)[2] == "--sprite-source="@[2]);
        }
    }
    assert(!has_prefix(j, "--generation="@)) by {
        if has_prefix(j, "--generation="@) {
            assert(j.take(13)[2] == "--generation="@[2]);
        }
    }
    assert(seq!["--version-group"@, v].drop_first() =~= seq![v]);
    assert(seq![v].drop_first() =~= Seq::<Seq<char>>::empty());
    assert(seq![j].drop_first() =~= Seq::<Seq<char>>::empty());
}

/// An option's value may be given as the next argument or after `=`: the
/// two forms give the same command line result, wherever they stand after
/// arguments that leave no option waiting for its value. `-s` and
/// `--sprite-source`, and `-g` and `--generation`, are the same option.
pub proof fn law_option_value_forms(pre: Seq<Seq<char>>, v: Seq<char>, q: Seq<Seq<char>>)
    requires
        pre.len() > 0,
        nothing_pending_after(pre),
    ensures
        spec_parse_args(pre + seq!["-s"@, v] + q) == spec_parse_args(
            pre + seq!["--sprite-source="@ + v] + q,
        ),
        spec_parse_args(pre + seq!["--sprite-source"@, v] + q) == spec_parse_args(
            pre + seq!["--sprite-source="@ + v] + q,
        ),
        spec_parse_args(pre + seq!["-g"@, v] + q) == spec_parse_args(
            pre + seq!["--generation="@ + v] + q,
        ),
        spec_parse_args(pre + seq!["--generation"@, v] + q) == spec_parse_args(
            pre + seq!["--generation="@ + v] + q,
        ),
        spec_parse_args(pre + seq!["--version-group"@, v] + q) == spec_parse_args(
            pre + seq!["--version-group="@ + v] + q,
        ),
{
    let bin = bin_name_of(pre);
    match read_args(initial_args_state(), options_of(pre), bin) {
        Ok(s) => {
            lemma_sprite_source_forms(s, "-s"@, v, bin);
            lemma_sprite_source_forms(s, "--sprite-source"@, v, bin);
            lemma_generation_forms(s, "-g"@, v, bin);
            lemma_generation_forms(s, "--generation"@, v, bin);
            lemma_version_group_forms(s, v, bin);
        },
        Err(_) => {},
    }
    lemma_same_reading(pre, seq!["-s"@, v], seq!["--sprite-source="@ + v], q);
    lemma_same_reading(pre, seq!["--sprite-source"@, v], seq!["--sprite-source="@ + v], q);
    lemma_same_reading(pre, seq!["-g"@, v], seq!["--generation="@ + v], q);
    lemma_same_reading(pre, seq!["--generation"@, v], seq!["--generation="@ + v], q);
    lemma_same_reading(pre, seq!["--version-group"@, v], seq!["--version-group="@ + v], q);
}

/// An argument that does not start with `-`, read while no name has been
/// read and no option waits for its value, is the pokemon name: it sets the
/// name and leaves everything read before it as it was.
pub proof fn law_name_keeps_earlier_options(st: ArgsState, arg: Seq<char>, bin: Seq<char>)
    requires
        st.pokemon_name is None,
        st.pending == PendingValue::Nothing,
        !(arg.len() > 0 && arg[0] == '-'),
    ensures
        step_arg(st, arg, bin) == Ok::<ArgsState, Seq<char>>(
            ArgsState {
                pokemon_name: Some(arg),
                shiny: st.shiny,
                cache_enabled: st.cache_enabled,
                sprite_source: st.sprite_source,
                sprite_gender: st.sprite_gender,
                sprite_generation: st.sprite_generation,
                sprite_version_group: st.sprite_version_group,
                sprite_animated: st.sprite_animated,
                pending: PendingValue::Nothing,
            },
        ),
{
    reveal_strlit("-c");
    reveal_strlit("--cache");
    reveal_strlit("-s");
    reveal_strlit("--sprite-source");
    reveal_strlit("--female");
    reveal_strlit("--male");
    reveal_strlit("-g");
    reveal_strlit("--generation");
    reveal_strlit("--version-group");
    reveal_strlit("--animated");
    reveal_strlit("--sprite-source=");
    reveal_strlit("--generation=");
    reveal_strlit("--version-group=");
    reveal_strlit("-");
    let lits = seq![
        "-c"@,
        "--cache"@,
        "-s"@,
        "--sprite-source"@,
        "--female"@,
        "--male"@,
        "-g"@,
        "--generation"@,
        "--version-group"@,
        "--animated"@,
    ];
    assert forall|k: int| 0 <= k < lits.len() implies arg != #[trigger] lits[k] by {
        assert(lits[k][0] == '-');
    }
    assert(!has_prefix(arg, "--sprite-source="@)) by {
        if has_prefix(arg, "--sprite-source="@) {
            assert(arg.take(16)[0] == "--sprite-source="@[0]);
        }
    }
    assert(!has_prefix(arg, "--generation="@)) by {
        if has_prefix(arg, "--generation="@) {
            assert(arg.take(13)[0] == "--generation="@[0]);
        }
    }
    assert(!has_prefix(arg, "--version-group="@)) by {
        if has_prefix(arg, "--version-group="@) {
            assert(arg.take(16)[0] == "--version-group="@[0]);
        }
    }
    assert(!has_prefix(arg, "-"@)) by {
        if has_prefix(arg, "-"@) {
            assert(arg.take(1)[0] == "-"@[0]);
        }
    }
    assert(lits[0] == "-c"@);
    assert(lits[1] == "--cache"@);
    assert(lits[2] == "-s"@);
    assert(lits[3] == "--sprite-source"@);
    assert(lits[4] == "--female"@);
    assert(lits[5] == "--male"@);
    assert(lits[6] == "-g"@);
    assert(lits[7] == "--generation"@);
    assert(lits[8] == "--version-group"@);
    assert(lits[9] == "--animated"@);
}

/// Each of the nine numerals, alone or after `generation-`, is accepted and
/// gives `generation-` followed by that numeral.
pub proof fn law_every_numeral_accepted(n: Seq<char>, bin: Seq<char>)
    requires
        n == "i"@ || n == "ii"@ || n == "iii"@ || n == "iv"@ || n == "v"@ || n == "vi"@ || n
            == "vii"@ || n == "viii"@ || n == "ix"@,
    ensures
        spec_parse_generation(n, bin) == Ok::<Seq<char>, Seq<char>>("generation-"@ + n),
        spec_parse_generation("generation-"@ + n, bin) == Ok::<Seq<char>, Seq<char>>(
            "generation-"@ + n,
        ),
{
    reveal_strlit("generation-");
    reveal_strlit("i");
    reveal_strlit("ii");
    reveal_strlit("iii");
    reveal_strlit("iv");
    reveal_strlit("v");
    reveal_strlit("vi");
    reveal_strlit("vii");
    reveal_strlit("viii");
    reveal_strlit("ix");
    let prefix = "generation-"@;
    // The numeral alone: nothing to lower-case, and too short for the prefix.
    assert forall|i: int| 0 <= i < n.len() implies !('A' <= #[trigger] n[i] && n[i] <= 'Z') by {}
    lemma_lower_no_capitals(n);
    assert(n.len() < prefix.len());
    assert(generation_suffix(n) == n);
    // With the prefix: also nothing to lower-case, and the prefix comes off.
    let g = prefix + n;
    assert forall|i: int| 0 <= i < g.len() implies !('A' <= #[trigger] g[i] && g[i] <= 'Z') by {
        if i < prefix.len() {
            assert(g[i] == prefix[i]);
        } else {
            assert(g[i] == n[i - prefix.len()]);
        }
    }
    lemma_lower_no_capitals(g);
    assert(g.take(prefix.len() as int) =~= prefix);
    assert(g.skip(prefix.len() as int) =~= n);
    assert(generation_suffix(g) == n);
}

/// What each flag does when no option waits for its value: `-c`/`--cache`
/// turns the cache on, `--female` and `--male` select the female and the
/// default gender, `--animated` asks for animation, `-s`/`--sprite-source`,
/// `-g`/`--generation` and `--version-group` make the next argument their
/// value, and `shiny` after the name asks for the shiny variant (before it,
/// `shiny` is the name). Nothing else changes.
pub proof fn law_flag_effects(st: ArgsState, bin: Seq<char>)
    requires
        st.pending == PendingValue::Nothing,
    ensures
        step_arg(st, "-c"@, bin) == Ok::<ArgsState, Seq<char>>(ArgsState { cache_enabled: true, ..st }),
        step_arg(st, "--cache"@, bin) == Ok::<ArgsState, Seq<char>>(
            ArgsState { cache_enabled: true, ..st },
        ),
        step_arg(st, "--female"@, bin) == Ok::<ArgsState, Seq<char>>(
            ArgsState { sprite_gender: Some(SpriteGender::Female), ..st },
        ),
        step_arg(st, "--male"@, bin) == Ok::<ArgsState, Seq<char>>(
            ArgsState { sprite_gender: Some(SpriteGender::Default), ..st },
        ),
        step_arg(st, "--animated"@, bin) == Ok::<ArgsState, Seq<char>>(
            ArgsState { sprite_animated: Some(true), ..st },
        ),
        step_arg(st, "-s"@, bin) == Ok::<ArgsState, Seq<char>>(
            ArgsState { pending: PendingValue::SpriteSource, ..st },
        ),
        step_arg(st, "--sprite-source"@, bin) == Ok::<ArgsState, Seq<char>>(
            ArgsState { pending: PendingValue::SpriteSource, ..st },
        ),
        step_arg(st, "-g"@, bin) == Ok::<ArgsState, Seq<char>>(
            ArgsState { pending: PendingValue::Generation, ..st },
        ),
        step_arg(st, "--generation"@, bin) == Ok::<ArgsState, Seq<char>>(
            ArgsState { pending: PendingValue::Generation, ..st },
        ),
        step_arg(st, "--version-group"@, bin) == Ok::<ArgsState, Seq<char>>(
            ArgsState { pending: PendingValue::VersionGroup, ..st },
        ),
        st.pokemon_name is Some ==> step_arg(st, "shiny"@, bin) == Ok::<ArgsState, Seq<char>>(
            ArgsState { shiny: true, ..st },
        ),
        st.pokemon_name is None ==> step_arg(st, "shiny"@, bin) == Ok::<ArgsState, Seq<char>>(
            ArgsState { pokemon_name: Some("shiny"@), ..st },
        ),
{
    lemma_flag_literals();
    reveal_strlit("-c");
    reveal_strlit("--cache");
    reveal_strlit("-s");
    reveal_strlit("--sprite-source");
    reveal_strlit("--female");
    reveal_strlit("--male");
    reveal_strlit("-g");
    reveal_strlit("--generation");
    reveal_strlit("--version-group");
    reveal_strlit("--animated");
    reveal_strlit("shiny");
    reveal_strlit("--sprite-source=");
    reveal_strlit("--generation=");
    reveal_strlit("--version-group=");
    reveal_strlit("-");
    assert("--version-group"@ != "--sprite-source"@);
    assert(!has_prefix("shiny"@, "-"@)) by {
        assert("shiny"@.take(1)[0] != "-"@[0]);
    }
}

/// An argument that starts with `-` and is none of the flags, nor a joined
/// `--sprite-source=`, `--generation=` or `--version-group=` option, is
/// refused as an unknown flag; a further argument after the name that is no
/// flag and not `shiny` is refused as unexpected. Both errors end with the
/// usage line.
pub proof fn law_refused_arguments(st: ArgsState, arg: Seq<char>, bin: Seq<char>)
    requires
        st.pending == PendingValue::Nothing,
        !(arg == "-c"@ || arg == "--cache"@ || arg == "-s"@ || arg == "--sprite-source"@ || arg
            == "--female"@ || arg == "--male"@ || arg == "-g"@ || arg == "--generation"@ || arg
            == "--version-group"@ || arg == "--animated"@ || arg == "shiny"@),
        !has_prefix(arg, "--sprite-source="@),
        !has_prefix(arg, "--generation="@),
        !has_prefix(arg, "--version-group="@),
    ensures
        (arg.len() > 0 && arg[0] == '-') ==> step_arg(st, arg, bin) == Err::<ArgsState, Seq<char>>(
            "Unknown flag '"@ + arg + "'.\n"@ + usage_text(bin),
        ),
        (!(arg.len() > 0 && arg[0] == '-') && st.pokemon_name is Some) ==> step_arg(st, arg, bin)
            == Err::<ArgsState, Seq<char>>("Unexpected argument '"@ + arg + "'.\n"@ + usage_text(bin)),
{
    reveal_strlit("-");
    if arg.len() > 0 && arg[0] == '-' {
        assert(arg.take(1) =~= "-"@);
    } else {
        assert(!has_prefix(arg, "-"@)) by {
            if has_prefix(arg, "-"@) {
                assert(arg.take(1)[0] == "-"@[0]);
            }
        }
    }
}

/// A command line that ends with an option still waiting for its value is
/// refused with the message for a missing value and the usage line.
pub proof fn law_dangling_option(args: Seq<Seq<char>>, flag: Seq<char>)
    requires
        args.len() > 0,
        flag == "-s"@ || flag == "--sprite-source"@ || flag == "-g"@ || flag == "--generation"@
            || flag == "--version-group"@,
        read_args(initial_args_state(), options_of(args), bin_name_of(args)) is Ok,
        nothing_pending_after(args),
    ensures
        spec_parse_args(args.push(flag)) == Err::<CliOptionsView, Seq<char>>(
            "Missing value for a sprite option.\n"@ + usage_text(bin_name_of(args)),
        ),
{
    let bin = bin_name_of(args);
    let st = read_args(initial_args_state(), options_of(args), bin)->Ok_0;
    lemma_push_parts(args, flag);
    lemma_read_args_push(initial_args_state(), options_of(args), flag, bin);
    law_flag_effects(st, bin);
}

/// Reading a generation ignores case: a value is accepted exactly when its
/// lower-cased form is, and both give the same generation.
pub proof fn law_generation_ignores_case(value: Seq<char>, bin: Seq<char>)
    ensures
        spec_parse_generation(value, bin) is Ok <==> spec_parse_generation(lower_ascii(value), bin) is Ok,
        spec_parse_generation(value, bin) is Ok ==> spec_parse_generation(value, bin)
            == spec_parse_generation(lower_ascii(value), bin),
{
    let low = lower_ascii(value);
    assert forall|i: int| 0 <= i < low.len() implies !('A' <= #[trigger] low[i] && low[i] <= 'Z') by {
        let c = value[i];
        if 'A' <= c && c <= 'Z' {
            assert(low[i] as u32 == c as u32 + 32);
        }
    }
    lemma_lower_no_capitals(low);
    assert(generation_suffix(low) == generation_suffix(value));
}

/// Once the cache is turned on, no later argument turns it off.
proof fn lemma_cache_stays_on(st: ArgsState, args: Seq<Seq<char>>, bin: Seq<char>)
    requires
        st.cache_enabled,
    ensures
        read_args(st, args, bin) matches Ok(s) ==> s.cache_enabled,
    decreases args.len(),
{
    if args.len() > 0 {
        match step_arg(st, args[0], bin) {
            Ok(next) => lemma_cache_stays_on(next, args.drop_first(), bin),
            Err(_) => {},
        }
    }
}

/// `-c` or `--cache` anywhere on the command line, where no option waits for
/// its value, turns the cache on: every command line that reads with it
/// gives options with the cache enabled.
pub proof fn law_cache_flag_anywhere(
    pre: Seq<Seq<char>>,
    flag: Seq<char>,
    post: Seq<Seq<char>>,
)
    requires
        pre.len() > 0,
        flag == "-c"@ || flag == "--cache"@,
        nothing_pending_after(pre),
    ensures
        spec_parse_args(pre.push(flag) + post) matches Ok(o) ==> o.cache_enabled,
{
    let bin = bin_name_of(pre);
    let opts = options_of(pre);
    let all = pre.push(flag) + post;
    assert(options_of(all) =~= opts + (seq![flag] + post));
    assert(bin_name_of(all) == bin);
    lemma_read_args_concat(initial_args_state(), opts, seq![flag] + post, bin);
    match read_args(initial_args_state(), opts, bin) {
        Ok(st) => {
            lemma_read_args_concat(st, seq![flag], post, bin);
            law_flag_effects(st, bin);
            reveal_with_fuel(read_args, 2);
            assert(seq![flag].drop_first() =~= Seq::<Seq<char>>::empty());
            match read_args(st, seq![flag], bin) {
                Ok(s1) => lemma_cache_stays_on(s1, post, bin),
                Err(_) => {},
            }
        },
        Err(_) => {},
    }
}

} // verus!
