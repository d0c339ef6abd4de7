# bar-daemon

The session service of a desktop bar. It gathers what a bar shows (audio,
battery, brightness, media, workspaces, power profiles, notifications,
calendars, todos, weather, world clocks, updates), offers it on the session bus
as one snapshot with streams of changes, and carries out what the bar asks for.

The rules of the service stand in a library that is verified with Verus; what
talks to the machine stands around it.

## Layout

- `src/` is the library. Functions state in their contracts what they return or
  change; where that rests on the machine's clock or time zone, they state what
  holds whatever these show. Properties that span several functions are public
  proof functions beside them.
  - `activity/` holds calendars, todos, weather and notifications.
  - `battery/` holds batteries, their charge limits, alerts and history.
  - `api/` decides what becomes of a request; `protocol/` lists the methods and
    streams; `subscriptions` and `state` say who hears of what.
  - `audio`, `brightness`, `hyprland`, `media`, `osd_hardware`, `power`,
    `sleep`, `timezone` and `updates` each hold one part of the desktop.
  - `text`, `sorting`, `time`, `record` and `properties` are shared by the rest.
- `app/` is the program: D-Bus, PipeWire, udev, files, SQLite, HTTP and JSON.
- `tests/` runs the library on given values.

The library holds no floating-point number: measures are carried by their bits
or in whole units, and the program converts them.
