# novelize

Generates a Ren'Py visual novel on a topic with a generative model, then
lints the project with the Ren'Py SDK and has the model repair the scenes
the linter blames.

- `src/` is the verified library (Verus):
  - `text.rs`: cleaning model replies (code-fence removal, trimming), decimal
    formatting, context joining;
  - `story.rs`: the storyboard types;
  - `generation.rs`: every prompt the pipeline sends;
  - `pipeline.rs`: scene requests, the main script, and the
    lint-triage-repair loop as a state machine;
  - `template.rs`: template manifests and the checks that keep their paths
    inside the template directory;
  - `renpy.rs`: SDK checks, lint launch decisions and error messages.
- `app/` is the command-line program: model calls, files, processes, and
  the serde/TOML/clap plumbing.
- `tests/` exercise the library on concrete values.
