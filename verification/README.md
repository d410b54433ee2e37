# cibergit

The state machines behind a native Git client, written in Verus: what the client decides about
pull requests, notifications and local checkouts, with contracts that say exactly when each
decision is taken and proofs that the code keeps them.

* `src/notifications` – polling of notifications, consent, delivery and the registry of what was
  delivered.
* `src/creation` – the form, the drafts, the journal and the dialog for creating a pull request.
* `src/workspace` – a local checkout: operations that exclude each other, publication of a
  branch, interactive rebase, and conflicts.
* `src/pr_browser.rs`, `src/pr_lifecycle.rs`, `src/read_sync.rs` – browsing pull requests,
  changing them, and admitting reads under the server's limits.
* `src/open_with.rs`, `src/page_window.rs`, `src/markdown_highlight.rs`, `src/private_files.rs` –
  smaller decisions around the window and the disk.
* `src/text.rs`, `src/text_map.rs`, `src/seqs.rs`, `src/sort.rs`, `src/encoding.rs`,
  `src/clock.rs`, `src/faults.rs`, `src/domain.rs` – what the others are built on.

A state machine takes an event and leaves a list of effects. `app/` performs the effects (files,
locks, processes, the provider) and hands the results back.

Views are plain values: a `panel` module says what is shown, and a toolkit draws it.
