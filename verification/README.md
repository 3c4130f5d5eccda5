# mtga_tracker

A tracker for Magic: The Gathering Arena, written in Verus: the library's functions carry
`requires`/`ensures` contracts that Verus proves.

- `src/injector`: the x64 machine-code assembler and the stubs that call the Mono runtime inside
  the game process, the lookup of the Mono module and of its exported functions (from the
  module's export table), the outcome of each stub, and the order of the injection's steps.
- `src/tracker`: the command line; the reading of the game's log into parts and the routing of
  each part to its reader; the event and card models; the matching of the client's cards with
  Scryfall's printings; the artist report; the counts of the draft summary; and the state of the tracker's window (log view,
  collection view, set selector).
- `src/text.rs`: text helpers with their specifications (`str::lines`, `str::trim`, decimal
  formatting, ...).
- `app/`: the program around the library: file, database and log I/O (the collections and
  inventories the log reports are stored in the database), and the JSON forms of the
  records with their conversions into the library's types.
- `tests/`: tests of the library on concrete values.

Calls into other crates (`chrono`, `onig`) and a few `std` functions go through small trusted
wrappers whose contracts name or state what those functions return.
