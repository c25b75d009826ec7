# ferrisdex

A small terminal Pokedex. `src/` is the library, verified with Verus:

- `text` – string operations with their specifications over `Seq<char>`
  (equality, prefixes, substring search and replacement, ASCII lower-casing,
  decimal printing and reading of integers, padding, repetition).
- `config` – sprite sources and genders, the configuration file's keys and the
  settings they give.
- `cli` – the command line: usage text, option values, the whole argument
  list as a state machine, and how the command line overrides the
  configuration. Laws: the last gender flag and the last generation win; an
  accepted generation reads back as itself; an option's value may follow it or
  be joined to it with `=`.
- `api` – the pokemon data the program reads, the choice of sprite URL (versions
  tree, preferred source, fallback order), the lookup query, the English display
  name, the checks of a sprite download and the decoding of its bytes (through
  the image crate). Laws: a sprite URL is always found;
  the preferred source comes first; the fallback list holds every source once.
- `display` – the text shown beside the sprite.
- `terminal` – the rows and columns of that text.

`app/` is the program around it: argument and file reading, the PokeAPI and
sprite downloads and drawing in the terminal.
