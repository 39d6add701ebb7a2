# codex_agents

Session picker and agents dashboard of the Codex terminal interface, verified with Verus.

- `src/` holds the picker: its state and keys, paging, searching, filtering and grouping of
  sessions, live updates of the dashboard, transcript previews, archiving, and everything that is
  drawn, line by line. Every function states what it does in its contract.
- `tests/` runs the library on concrete sessions.
- `app/` connects the library to a terminal, an app server and the clock.

The library does no input or output. It takes events as plain values and queues what is to be done:
requests to the app server (`PickerState::requests`), edits of the composer
(`DashboardComposer::edits`) and frames to draw (`frame_requested`, `delayed_frames`).

## Where to look

| Subject | Modules |
| --- | --- |
| State and its parts | `picker`, `session`, `row`, `pagination`, `protocol` |
| Keys and terminal events | `keys`, `keyboard`, `composer_keys`, `toolbar`, `run` |
| Loading | `loading`, `loader`, `events`, `preview`, `transcript`, `archive` |
| Searching, filtering and order | `search`, `filter`, `order`, `sort`, `scroll` |
| Dashboard | `dashboard`, `agents`, `live_rows`, `composer`, `history`, `bootstrap` |
| Drawing | `layout`, `frame`, `header`, `progress`, `hints`, `render_card`, `render_row`, `render_session`, `metadata`, `draw`, `style` |
| What holds of every run | `laws`, `invariants`, `distinct_rows`, `distinct_events` |

What the library takes from other crates without proof (lower case, UUIDs, dates, display width and
the split of the screen) stands in functions marked `external_body` in `text`, `ids`, `time`,
`style` and `layout`, each with a comment on what its contract claims.
