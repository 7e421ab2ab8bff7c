# vrc_logger

A Discord bot that watches the VRChat websocket of one or more VRChat accounts and
sends Discord direct messages about tracked friends: when they come online, move,
change their profile, go offline, or are added or removed. Each message about a
friend in an instance carries "Invite Myself" buttons; a press is answered by
inviting the presser, if they own the account.

## Layout

- `src/` is the verified library (Verus):
  - `relay` decides which incoming websocket message becomes which Discord notice,
    for whom, with which lines, image and invite buttons, and who may use an
    invite button;
  - `vrc::session` keeps the login state and the credentials that each API request
    carries; `vrc::auth` holds the credentials; `vrc` checks second-factor codes;
  - `vrc::websocket::connection` is the reconnection state machine of the socket
    loop, with a law over whole runs of it;
  - `vrc::websocket::*` are the message types, with their text forms;
  - `vrc::time` reads RFC 3339 times through chrono;
  - `text` holds the string helpers the rest is built from.
- `app/` is the program around it: configuration, the VRChat and Discord clients,
  the async socket loop, and the serde forms of the message types.
- `tests/` runs the library on concrete values.
