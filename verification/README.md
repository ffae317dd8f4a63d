# tui

The logic of a terminal front end for a coding-agent workspace server,
verified with Verus, and a thin terminal program around it.

- `src/` is the verified library: key routing and key maps, the text and vim
  editors, the composer's executor and model settings, draft and notes
  syncing, how backend events change the screen's state, the chat's
  conversation state, markdown and log rendering, line wrapping, the paste
  snippets and their draft encoding, and the terminal websocket's messages.
  Each public function states in its contract what it returns or changes.
- `tests/` runs the library on concrete values.
- `app/` is the terminal program: it reads keys with crossterm, hands them to
  the library and draws the result with ratatui. It finds the backend's
  address but does not connect to it.
