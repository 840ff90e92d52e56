# spotter

A Spotify listening-history logger and the statistics API over what it
stores, with its logic verified by Verus.

- `src/` is the verified library:
  - `spotify_data` turns the recently-played history into rows,
  - `sync` decides what one poll asks for, which rows it writes and in which
    order, and what a failed write means,
  - `database` holds the rows and the writes,
  - `auth` decides the client settings, whether a sign-in is needed and what
    the OAuth callback answers,
  - `handle` and `queries` decide the API's defaults and answers and render
    the statistics totals,
  - `time` and `text` hold instants, the Dhaka wall clock, and text forms.
- `app/` runs it: `spotter` polls Spotify and writes to PostgreSQL;
  `spotter api` serves the statistics on port 4005.
- `tests/` runs the library on concrete values.
