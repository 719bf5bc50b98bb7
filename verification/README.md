# jira_cli

A command line helper for Jira: pick a board, a sprint and an issue, cache the
sprint's issues, and check out a git branch named after the active issue.

- `src/` is the verified library (Verus). It holds the decisions and the data:
  what to do next for a context (`context`, `commands`), the requests sent to
  Jira and the paging through their answers (`api`), the files of a workspace
  and the issue cache (`paths`, `cache`), branch bookkeeping and branch names
  (`git`), the list offered by the picker (`pick`), the first version of the
  tool (`legacy`) and the workflow tool (`workflow`).
- `app/` is the program around it: command line parsing, the file system, the
  network, the terminal picker, git, and the YAML/JSON copies of the library's
  types.
- `tests/` runs the library on concrete values.
