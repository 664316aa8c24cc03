# youtui

Key handling, keymap display, the log pane and backend request types of a
terminal music player, with the podcast and continuation queries of its web
API client. The library in `src/` is verified with Verus; `app/` holds the
glue that Verus does not see (terminal key event conversion, the
configuration form of actions, drawing of the log pane).

Layout of `src/`:

- `keys`: key codes, modifier bits, key events and keybinds, with the text
  a keybind is shown as.
- `keymap`: keymaps (keybinds mapped to actions or to nested modes), their
  lookup and insertion laws.
- `keyaction`: actions bound to keys and their displayed form.
- `actionhandler`: the `Action` and component traits, the key-stack handler
  with its laws, and the keybind listings for help menus.
- `config`: the application's keymaps as the key routers read them.
- `logger`: the log pane, its actions and the widget events they send.
- `logwidget`: the log widget's state, which records each event handed to it.
- `server`: requests to the backend and their task metadata.
- `common`, `query`: identifiers, the POST query trait and the podcast and
  continuation queries, with the JSON bodies they send.
