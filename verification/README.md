# im_client

The verified core of a browser instant-messaging client.

- `src/` — the library, verified with Verus: the registration page's state machine
  and view (e-mail check, code countdown, password strength), the add-friend panel,
  the home page's notification queue and friendship handling, group models and the
  call-duration text.
- `app/` — the yew components, IndexedDB interface, media capture and serde models
  that run the library in the browser.
- `tests/` — tests of the library on concrete values.
