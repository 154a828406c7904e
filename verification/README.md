# qlty

The core of a code quality toolkit, verified with Verus: how linters' output
becomes issues, how tools are installed and identified, how the
configuration files of a check are staged, and how the syntax trees of six
languages are read.

## Layout

- `src/` — the verified library.
  - `analysis`, `line_index`, `snippet`, `utils`: issues and their
    locations, line ranges of changed files, snippet truncation, random
    identifiers.
  - `parser`: the issues of Biome, mypy, ast-grep, editorconfig-checker,
    HAML-Lint, Terraform, Reek and Reviewdog (rdjson) output.
  - `planner`: which configuration files each plugin uses and the
    operations that put them in place; column correction for tab-indented
    files.
  - `executor`: issue limits, installation errors, and the steps of
    staging configuration files.
  - `tool`: versions, retries, failures, environments, fingerprints and
    downloads of tools and their runtimes (Node.js, Python, PHP, GitHub
    releases), and `package.json` preparation.
  - `workspace_entries`: the entries of the paths handed to a check, and
    exclusions.
  - `lang`: the node kinds each language's metrics count, and what calls,
    field accesses and definitions name, over a syntax tree model.
  - `llm`: the limits on automated fixes.
  - `pattern`: regular expressions and globs, through `regex` and
    `globset`.
  - `paths`: paths read by their components, through `std::path::Path`.
- `tests/` — tests of the library.
- `app/` — what surrounds it: JSON output of linters read into the
  library's types, walking and changing the file system, error chains and
  installation records.
