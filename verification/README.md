# review_ui

The logic of a code review panel, verified with Verus, and the panel itself around it.

- `src/` is the library. It decides what the panel shows and what it asks for; it draws nothing and
  waits for nothing. What it asks for comes out as values (`effects`), and the answers come back in
  as events (`review_panel`).
  - `repo_path`, `tree_diff`: paths, diffs and the order in which files are listed.
  - `file_list`: the list of files, what is selected and viewed in it, and what it shows.
  - `github_remote`: the owner and the repository behind the URL of a remote.
  - `recent_reviews`: the reviews opened lately and their menu.
  - `panel_model`: the panel as a mathematical value, and what each event does to it.
  - `review_panel`: the panel, proved to do what `panel_model` says.
  - `panel_laws`: what holds over more than one event.
- `tests/` runs the library.
- `app/` is the panel in the editor: it draws, talks to git and GitHub, and hands on events.
