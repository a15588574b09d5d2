# ha_companion

The verified core of a desktop companion for Home Assistant: a tray
application that shows the Home Assistant web UI and turns Home Assistant
notifications into desktop notifications.

- `src/config.rs`: the stored configuration (server URL, access token,
  preferences) and its update rules; a URL is only stored when it parses.
- `src/text.rs`: the websocket endpoint derived from the server URL.
- `src/json.rs`: JSON values as plain data, with member and string lookups.
- `src/session.rs`: the websocket session as a state machine (authentication,
  subscriptions, event routing).
- `src/notices.rs`: which events raise which desktop notifications.
- `src/desktop.rs`: window-event, startup and update-message decisions.
- `src/laws.rs`: properties that span these operations, proved.
- `app/`: the Tauri shell around the library (socket and file I/O, windows,
  notifications, updater).
