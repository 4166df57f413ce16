# dtw_merchant

The decision logic of the merchant desktop shell (a Tauri wrapper around the
duitaofang.cn back office), written in Verus and proved against its contracts.

- `src/tray.rs`: the tray's hover text (unread count and up to five sender
  names), reading a tray event's JSON payload, the blinking of the tray icon,
  menu and click handling, the taskbar-attention decision, the blank icon face.
- `src/update.rs`: the forced update at start-up as a state machine
  (check, notice that cannot be declined, install, restart; a failed install
  shows the notice again and retries, so an outdated version is not left running).
- `src/window.rs`: the window layout (title bar above content), the file name
  proposed for downloads and what the save dialog's answer does.
- `src/creds.rs`: the push-credentials file text, proved to be the JSON object
  of the stripped token and merchant id.
- `src/json.rs`: a plain model of a parsed JSON value and its accessors; the
  text is parsed by `serde_json`.
- `src/text.rs`: decimal rendering, joining, character helpers.

`app/` holds the Tauri plumbing (windows, tray, dialogs, events, threads,
file writes) that performs what the library decides.
