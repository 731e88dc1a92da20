# vaminfo

A customizable system information fetch tool for VamoraOS: the system's
details next to (or under) an ASCII logo, a compact mini box, JSON export,
Linux tips, birthday and event greetings, and an interactive configuration
wizard.

## Layout

- `src/` is the verified library. Every function carries a contract that
  Verus proves, except a few small wrappers around the standard library
  and `colored` (`String::push`, case conversion, the system clock, and
  colouring), whose contracts are trusted and stated in their doc comments:
  - `text`, `num`: string and number primitives (splitting, trimming, word
    lists, UTF-8 byte lengths, decimal parsing and fixed-point formatting);
  - `ascii`, `style`, `layout`, `renderer`: visible widths, colour
    segments, the layout choice and every page (information lines, split
    and stacked layouts, mini box, version page, JSON);
  - `calendar`, `greetings`, `tips`: dates, birthday and event greetings,
    the birthday animation frames, tips;
  - `config`, `modules`: the configuration model, module switches, display
    order, and one file per information module deciding what it shows
    from what was read from the system;
  - `wizard`, `cli`: the decisions of the configuration wizard and of the
    command line.
- `tests/` exercises the library on concrete values.
- `app/` is the program: it reads the command line, the configuration file
  (TOML through serde), the environment, `/proc`, `/sys`, helper commands
  and `sysinfo`, computes the floating-point figures (usage percentages,
  CPU load, temperatures, the RAM bar), and prints what the library
  composes.
