# telera

TML, the markdown layout language of the Telera application framework, as a
library verified with Verus.

A layout is a markdown document: a `#### TML` header of resource and `calc`
directives, a `# page` body, `## name` config snippets and `### name` element
snippets, each a nested list of keyword items. The library compiles it to a
flat stream of layout commands and proves what that stream is.

## Layout

- `src/` — the verified library.
  - `prepass` — backticks around bare leading keywords; only adds them, keeps
    every other character (line breaks included), and is idempotent.
  - `md` — the markdown tree the compiler reads (parsed by the `markdown` crate).
  - `calc`, `literals`, `args`, `decls`, `configs`, `shapes`, `elements`,
    `document` — the compiler, each function stated against a spec function.
  - `ctx`, `resolve` — `calc` expressions recorded with their scopes, and
    their values folded back in.
  - `nesting`, `ordering`, `pending` — laws of compiled documents: well
    nested, expressions see only earlier ones, every waiting number has its
    entry.
  - `binder`, `lookup`, `walker`, `events` — the run-time side: pages and
    snippets by name, where a named value comes from, and the command-by-command
    run of a page.
- `tests/` — the library's tests.
- `app/` — the host side: `calc` evaluation and canvas pan/zoom in floating
  point, loading a layout file into the binder, shapes and shaders resolved for a frame, and the frame loop that
  drives the walker against the layout engine and the app.
