# rust_control_panel_template

Back end of an admin control panel: an HTTP API over an `admin_user` table,
guarded by Auth0 bearer tokens.

- `src/` is the verified library (Verus):
  - `auth` — the authentication steps a request goes through, from the
    `Authorization` header to the admin user that the token's email names;
  - `admin_api` — listing windows, not-found handling and the replies the API
    sends;
  - `schema` — the `admin_user` row, the hooks that stamp it before writes, the
    update rule and the schema check;
  - `server` — start-up decisions (database selection, Auth0 settings).
- `app/` is the server program: poem routes and middleware, welds database
  access, migrations, serde, the command line.
- `tests/` exercises the library.
