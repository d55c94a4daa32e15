# gitcomet_update

The update, toast, settings and start-up logic of the GitComet desktop Git
client, written in Verus: each function carries a `requires`/`ensures`
contract that Verus proves, and the properties that span several functions
are stated and proved as public proof functions (`lemma_*`).

## Layout

- `src/` — the verified library.
  - Updates: `semver_tag` (release tags), `update_check` (repository
    slugs, platform assets, update notices), `update_service` (update
    phase, status line, badge), `update_download` (the download as a state
    machine), `auto_update` (staging lock, archive kinds, the release binary
    search), `apply_update` (the updater's plan, wait and restart
    decisions), `updater_args` (reading the updater's command line).
  - Toasts: `toast` (code messages, clone and submodule progress),
    `toast_queue` (the toast stack, ids, lifetimes, buttons).
  - Settings: `settings`, `settings_model`, `settings_store` (reading and
    writing the stored preferences), `git_runtime` (Git executable and
    version).
  - Views: `view_config`, `bootstrap_paths`, `status`, `diff_view`,
    `conflict`, `conflict_state`.
  - Start-up: `launch`, `wayland`, `exit_code`; `text` holds string helpers
    and specifications.
- `tests/` — tests of the library on concrete values.
- `app/` — the program around the library: argument handling, file and
  process work of the updater, archive extraction, JSON and lock files.
