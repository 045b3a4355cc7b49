# jiracc

`jiracc` keeps the Jira issues selected by a JQL query available offline: it
synchronizes them into a local snapshot, and then searches, shows and reports
on that snapshot without a network connection.

## Layout

- `src/` is the library, verified with Verus. It holds the logic: checking and
  expanding the configuration, the search criteria and their matching rules,
  paging through Jira's search results, turning Jira's responses into cached
  issues, and rendering issues, search results, cache status and relative times.
  Calls into outside crates (URL parsing, environment-variable expansion,
  SHA-256, time handling, column alignment) go through small trusted wrappers.
  Their contracts state what the crates' sources and documentation promise,
  or name a result that depends only on the arguments; the wrapper that shows
  a path as text (`path_text`) states nothing of its result.
- `app/` is the command-line program around the library: argument parsing,
  reading files and the environment, HTTP requests, JSON and TOML
  (de)serialization, writing snapshots to disk, and printing.
- `tests/` exercises the library through its public interface.
