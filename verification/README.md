# randl

A command-line client that downloads random "rewards" from federated,
static-hosted repository lists. A repository list is a text file with one
entry per line: a URL is a reward, `Nested <url>` points to another list,
`Archive <url>` to a tarball to unpack; lines starting with `#` and blank
lines are ignored.

The crate is split in two:

- `src/` is the library, verified with Verus. It holds the rules of the
  program: how list entries are read and classified (`text`, `repository`),
  the configured repositories and the `repository` subcommands applied to
  them (`repository`), the state machines of a pull and of its repeated
  rounds (`pull`), download progress and sizes (`download`), archive
  recognition (`archive`), the VirusTotal scan and file fingerprints
  (`security`), and file names and timeouts (`util`). Each public function
  carries a contract; the laws (what `pull` never does in a dry run or
  without dialogs, what reading back the repository table gives, ...) are
  proof functions next to the code they speak of.
- `app/` is the program: command-line parsing, configuration files, HTTP,
  prompts, the file system and printing. It performs what the library's
  state machines ask for and hands the answers back.

Tests of the library are under `tests/`.
