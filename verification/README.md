# bazel-diff-targets

A command-line tool that finds the Git repository it runs in, checks that the
repository can be compared (not bare, not shallow, a clean working tree unless
`--dirty`), resolves and infers the refs to compare, and plans and prepares the
checkouts for both sides. Its logic is a library verified with Verus.

## Layout

- `src/` — the verified library.
  - `args.rs`: the command line and the rule for `--target-type` values.
  - `error.rs`: the tool's errors, their stable kinds, hints, and human and
    JSON renderings.
  - `git/`: the repository. `git` itself is not run by the library: each
    operation is a *session* that asks for one outside action at a time
    (`world.rs`: run a `git` command, create or remove a temporary directory)
    and decides from the answers. Each session's contract states, as
    functions of a model of the world that gives those answers, its result
    and the exact sequence of requests it makes.
    - `commands.rs`: the `git` commands and how their answers are read.
    - `inspect.rs`: discovering the repository, validating it, resolving and
      inferring refs, and checking the working tree.
    - `worktrees.rs`: adding and removing temporary worktrees, preparing both
      sides of a comparison and cleaning them up.
  - `run.rs`: a run of the tool as one session.
  - `text.rs`, `json.rs`, `path.rs`: trimming, UTF-8, decimal numbers, JSON
    string literals, and paths.
- `app/main.rs` — the executable: clap's command line, the loop that performs
  each requested action (`git`, `tempfile`, `std::fs`) and hands back the
  answer, and error output.
- `tests/` — tests that drive the sessions with scripted answers.
