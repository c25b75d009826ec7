use vstd::prelude::*;

use crate::api::{Pokemon, PokemonStat};
use crate::text::{
    int_decimal, pad_left, pad_right, push_decimal_i64, push_padded_left, push_padded_right,
    repeat_seq, repeat_str, string_of,
};

verus! {

/// The length of the bar drawn for a base stat: a block for every full five
/// points, at most twenty.
pub open spec fn stat_bar_len(base_stat: i64) -> nat {
    if base_stat <= 0 {
        0
    } else if base_stat / 5 >= 20 {
        20
    } else {
        (base_stat / 5) as nat
    }
}

/// The line shown for one ability.
pub open spec fn ability_line(name: Seq<char>) -> Seq<char> {
    "    • "@ + name
}

/// The lines shown for the abilities that have a name, in order.
pub open spec fn ability_lines(abilities: Seq<Option<String>>) -> Seq<Seq<char>>
    decreases abilities.len(),
{
    if abilities.len() == 0 {
        Seq::empty()
    } else {
        let rest = ability_lines(abilities.drop_last());
        match abilities.last() {
            Some(name) => rest.push(ability_line(name@)),
            None => rest,
        }
    }
}

/// The line shown for one base stat: its name padded to twenty characters,
/// its value right-aligned in three, and its bar.
pub open spec fn stat_line(stat: PokemonStat) -> Seq<char> {
    "    "@ + pad_right(stat.name@, 20) + " "@ + pad_left(int_decimal(stat.base_stat as int), 3)
        + "  "@ + repeat_seq("█"@, stat_bar_len(stat.base_stat))
}

/// The lines shown for the base stats, in order.
pub open spec fn stat_lines(stats: Seq<PokemonStat>) -> Seq<Seq<char>>
    decreases stats.len(),
{
    if stats.len() == 0 {
        Seq::empty()
    } else {
        stat_lines(stats.drop_last()).push(stat_line(stats.last()))
    }
}

/// The text shown beside the sprite.
pub open spec fn spec_info_lines(pokemon: Pokemon, display_name: Seq<char>) -> Seq<Seq<char>> {
    seq![
        Seq::empty(),
        "🦀 FerrisDex"@,
        "══════════════════════════"@,
        Seq::empty(),
        "  Name:  "@ + display_name,
        "  Dex #: "@ + int_decimal(pokemon.id as int),
        Seq::empty(),
        "  ── Abilities ──"@,
    ] + ability_lines(pokemon.abilities@) + seq![Seq::empty(), "  ── Base Stats ──"@]
        + stat_lines(pokemon.stats@) + seq![Seq::<char>::empty()]
}

/// Holds of an ability whose name is given.
pub open spec fn is_named() -> spec_fn(Option<String>) -> bool {
    |a: Option<String>| a is Some
}

/// There is one stat line per stat, in order.
proof fn lemma_stat_lines(stats: Seq<PokemonStat>)
    ensures
        stat_lines(stats).len() == stats.len(),
        forall|i: int| 0 <= i < stats.len() ==> #[trigger] stat_lines(stats)[i] == stat_line(stats[i]),
    decreases stats.len(),
{
    if stats.len() > 0 {
        lemma_stat_lines(stats.drop_last());
        assert forall|i: int| 0 <= i < stats.len() implies #[trigger] stat_lines(stats)[i]
            == stat_line(stats[i]) by {
            if i < stats.len() - 1 {
                assert(stat_lines(stats)[i] == stat_lines(stats.drop_last())[i]);
            }
        }
    }
}

/// The text beside the sprite has eight heading lines, one line per named
/// ability, two lines before the stats, one line per base stat (each the
/// stat's own line, in order) and a closing empty line.
pub proof fn law_info_lines_cover_every_stat(pokemon: Pokemon, display_name: Seq<char>)
    ensures
        ({
            let lines = spec_info_lines(pokemon, display_name);
            let named = pokemon.abilities@.filter(is_named()).len();
            &&& lines.len() == 8 + named + 2 + pokemon.stats@.len() + 1
            &&& forall|i: int|
                0 <= i < pokemon.stats@.len() ==> lines[8 + named + 2 + i] == stat_line(
                    #[trigger] pokemon.stats@[i],
                )
            &&& lines[lines.len() - 1] == Seq::<char>::empty()
        }),
{
    law_ability_lines_named_in_order(pokemon.abilities@);
    lemma_stat_lines(pokemon.stats@);
    let lines = spec_info_lines(pokemon, display_name);
    let named = pokemon.abilities@.filter(is_named()).len();
    assert forall|i: int| 0 <= i < pokemon.stats@.len() implies lines[8 + named + 2 + i]
        == stat_line(#[trigger] pokemon.stats@[i]) by {
        assert(stat_lines(pokemon.stats@)[i] == stat_line(pokemon.stats@[i]));
    }
}

/// A stat's bar has one block per full five points of the stat, and never
/// more than twenty blocks; a stat of zero or less has no bar.
pub proof fn law_stat_bar_blocks(base_stat: i64)
    ensures
        base_stat <= 0 ==> stat_bar_len(base_stat) == 0,
        0 <= base_stat < 100 ==> 5 * stat_bar_len(base_stat) <= base_stat < 5 * stat_bar_len(
            base_stat,
        ) + 5,
        base_stat >= 100 ==> stat_bar_len(base_stat) == 20,
        stat_bar_len(base_stat) <= 20,
{
}

/// Every ability with a name, and only those, gets a line `    • <name>`,
/// in the order of the abilities.
pub proof fn law_ability_lines_named_in_order(abilities: Seq<Option<String>>)
    ensures
        ({
            let named = abilities.filter(is_named());
            &&& ability_lines(abilities).len() == named.len()
            &&& forall|k: int|
                0 <= k < named.len() ==> #[trigger] ability_lines(abilities)[k] == "    • "@
                    + named[k]->Some_0@
        }),
    decreases abilities.len(),
{
    reveal_with_fuel(Seq::<_>::filter, 1);
    if abilities.len() > 0 {
        let rest = abilities.drop_last();
        law_ability_lines_named_in_order(rest);
        let named = abilities.filter(is_named());
        let rest_named = rest.filter(is_named());
        assert forall|k: int| 0 <= k < named.len() implies #[trigger] ability_lines(abilities)[k]
            == "    • "@ + named[k]->Some_0@ by {
            if k < rest_named.len() {
                assert(ability_lines(abilities)[k] == ability_lines(rest)[k]);
                assert(named[k] == rest_named[k]);
            }
        }
    }
}

/// The characters of each line.
pub open spec fn lines_view(lines: Seq<String>) -> Seq<Seq<char>> {
    lines.map_values(|l: String| l@)
}

fn stat_line_string(stat: &PokemonStat) -> (r: String)
    requires
        stat.base_stat > -5,
    ensures
        r@ == stat_line(*stat),
{
    let b: i64 = stat.base_stat;
    let bar_len: usize = if b <= 0 {
        0
    } else if b / 5 >= 20 {
        20
    } else {
        (b / 5) as usize
    };
    let mut line: String = String::new();
    line.append("    ");
    push_padded_right(&mut line, stat.name.as_str(), 20);
    line.append(" ");
    let mut number: String = String::new();
    push_decimal_i64(&mut number, b);
    push_padded_left(&mut line, number.as_str(), 3);
    line.append("  ");
    let bar: String = repeat_str("█", bar_len);
    line.append(bar.as_str());
    assert(line@ =~= stat_line(*stat));
    line
}

/// The text shown beside the sprite: a title, the display name and number,
/// the named abilities and the base stats with their bars.
pub fn build_info_lines(pokemon: &Pokemon, display_name: &str) -> (r: Vec<String>)
    requires
        forall|i: int| 0 <= i < pokemon.stats@.len() ==> #[trigger] pokemon.stats@[i].base_stat > -5,
    ensures
        lines_view(r@) == spec_info_lines(*pokemon, display_name@),
{
    let mut lines: Vec<String> = Vec::new();
    lines.push(String::new());
    lines.push(string_of("🦀 FerrisDex"));
    lines.push(string_of("══════════════════════════"));
    lines.push(String::new());
    let mut name_line: String = string_of("  Name:  ");
    name_line.append(display_name);
    lines.push(name_line);
    let mut dex_line: String = string_of("  Dex #: ");
    push_decimal_i64(&mut dex_line, pokemon.id);
    lines.push(dex_line);
    lines.push(String::new());
    lines.push(string_of("  ── Abilities ──"));
    let ghost head = lines_view(lines@);
    assert(head =~= seq![
        Seq::empty(),
        "🦀 FerrisDex"@,
        "══════════════════════════"@,
        Seq::empty(),
        "  Name:  "@ + display_name@,
        "  Dex #: "@ + int_decimal(pokemon.id as int),
        Seq::empty(),
        "  ── Abilities ──"@,
    ]);
    let n: usize = pokemon.abilities.len();
    let mut i: usize = 0;
    assert(pokemon.abilities@.take(0) =~= Seq::<Option<String>>::empty());
    while i < n
        invariant
            n == pokemon.abilities@.len(),
            i <= n,
            lines_view(lines@) == head + ability_lines(pokemon.abilities@.take(i as int)),
        decreases n - i,
    {
        assert(pokemon.abilities@.take(i + 1).drop_last() =~= pokemon.abilities@.take(i as int));
        assert(pokemon.abilities@.take(i + 1).last() == pokemon.abilities@[i as int]);
        let ghost before = lines@;
        match &pokemon.abilities[i] {
            Some(ability) => {
                let mut line: String = string_of("    • ");
                line.append(ability.as_str());
                lines.push(line);
                assert(lines_view(lines@) =~= lines_view(before).push(ability_line(ability@)));
            },
            None => {},
        }
        i += 1;
        assert(lines_view(lines@) =~= head + ability_lines(pokemon.abilities@.take(i as int)));
    }
    assert(pokemon.abilities@.take(n as int) =~= pokemon.abilities@);
    lines.push(String::new());
    lines.push(string_of("  ── Base Stats ──"));
    let ghost middle = lines_view(lines@);
    assert(middle =~= head + ability_lines(pokemon.abilities@) + seq![
        Seq::empty(),
        "  ── Base Stats ──"@,
    ]);
    let m: usize = pokemon.stats.len();
    let mut j: usize = 0;
    assert(pokemon.stats@.take(0) =~= Seq::<PokemonStat>::empty());
    while j < m
        invariant
            m == pokemon.stats@.len(),
            j <= m,
            forall|k: int| 0 <= k < pokemon.stats@.len() ==> #[trigger] pokemon.stats@[k].base_stat > -5,
            lines_view(lines@) == middle + stat_lines(pokemon.stats@.take(j as int)),
        decreases m - j,
    {
        assert(pokemon.stats@.take(j + 1).drop_last() =~= pokemon.stats@.take(j as int));
        assert(pokemon.stats@.take(j + 1).last() == pokemon.stats@[j as int]);
        let ghost before = lines@;
        let line: String = stat_line_string(&pokemon.stats[j]);
        lines.push(line);
        assert(lines_view(lines@) =~= lines_view(before).push(stat_line(pokemon.stats@[j as int])));
        j += 1;
        assert(lines_view(lines@) =~= middle + stat_lines(pokemon.stats@.take(j as int)));
    }
    assert(pokemon.stats@.take(m as int) =~= pokemon.stats@);
    lines.push(String::new());
    assert(lines_view(lines@) =~= spec_info_lines(*pokemon, display_name@));
    lines
}

} // verus!
