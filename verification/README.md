# asim_desktop

The account logic behind the aSim desktop app, verified with Verus.

- `src/` is the library: upper-case hex encoding (`hex`), salted SHA-256
  password hashing and the random parts of a new account (`crypto`), dates of
  birth (`date`), the model of a stored record (`item`), the account records
  and errors (`models`), the stored shape of credentials and profiles and the
  decisions on each database answer (`accounts`), table creation and the wait
  for a table to become active (`tables`), and the account deletion state
  machine (`deletion`).
- `app/` is the application around it: the DynamoDB client calls, the
  conversions between DynamoDB items and the library's records, the serde
  copies of the records, and the desktop shell.
- `tests/` exercises the library, including whole register / login / delete
  flows against an in-memory table store.
