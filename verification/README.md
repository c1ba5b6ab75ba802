# moh_desktop

The MOH desktop is a small X11 desktop: an event hub that passes messages
between programs over a Unix socket, a window manager, a panel, a cursor
setter and a wallpaper.

`src/` is the verified core, checked by Verus:

- `router`: the event hub's subscription table and message handling, with
  the laws of delivery (who receives a publication).
- `messages`: the hub's message types, and the topic and payload of a line
  that a hub client receives.
- `session`: connecting to the hub (retry policy, socket path, exit topic).
- `theme`, `config`: reading the decoration theme and the configuration text.
- `text`: character-level helpers (lines, trimming, splitting) that match
  std's string functions.
- `request`: the X requests the programs send, as plain data.
- `frame`, `client`, `panel`, `dev_panel`, `wm`: window decoration layout,
  client bookkeeping, the panels and the window managers' event handling.
- `ui`: the UI service's commands and the scripts it runs.
- `wallpaper`: the wallpaper window's requests.
- `pointer`: the pointer state.

`app/` holds the programs themselves (`moh-desktop <program>`): the event
hub, the two window managers, the cursor, panel and wallpaper programs, with
the socket and X connections, reading files, serialisation, and the event
loops that hand events to the core and send the requests it returns. Of the
UI service it holds only the hub side (`app/ui_service.rs`): its window and
web view need the tao and wry crates, which are not part of this build.
