# sashiko

Verified core of a patch-review service: the tools an AI agent may call on a git
worktree, the review of pending patchsets and the polling of a news server.

- `src/` is the library, verified with Verus:
  - `tools.rs`: `ToolBox`, which decides what a tool call asks for (paths confined to the
    worktree or the prompt directory, git arguments), and turns file contents and git
    output into results;
  - `declarations.rs`: the declarations of the tools and their JSON schemas;
  - `json.rs`: a JSON value as the library reads it;
  - `text.rs`, `paths.rs`: lines, joining, decimal numbers, path joining;
  - `review.rs`: the review of one patchset as a task of status updates and a tool run;
  - `ingest.rs`: the polling cycle over news groups.
- `app/` holds the runtime: files, processes, timers and the conversions to and from
  `serde_json`.
- `tests/` runs the library on concrete values.
