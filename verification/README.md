# Plantbuddy

Plantbuddy is a desktop application for managing plants: it shows the
readings of the plants' sensors as charts, lets users view and edit plant
and plant group data, lets admins manage users, and has a few settings.

## Layout

- `src/` is the library, verified with Verus. Each page of the application
  is a state machine there: `update` takes a message, changes the page and
  answers with a command for the application to carry out (a request to the
  server, say); the replies come back through the pages' `receive_*`
  functions. The contracts state the next state and the command exactly,
  except for what the clock or chance decides (timestamps, line colors),
  where they state what holds of every outcome.
  - `application.rs`: the tabs shown and how messages reach them.
  - `login.rs`, `logout.rs`, `management.rs`, `settings.rs`, `home.rs`,
    `detail.rs`: the pages.
  - `graphs.rs`: the lines drawn from sensor readings.
  - `requests.rs`: the data exchanged with the server, credentials and
    addresses.
  - `sensors.rs`, `role.rs`, `icons.rs`, `color.rs`, `buttons.rs`: small
    vocabularies of the application.
  - `text.rs`, `clock.rs`: text handling and timestamps.
- `app/` is the program around the library: the GUI (iced, iced_aw,
  plotters), the HTTP client (reqwest, tokio) and JSON (serde).
- `tests/` holds the tests of the library.
