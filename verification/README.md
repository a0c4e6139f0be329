# mailscope

An inbox-placement tester: a message carrying a run token is sent to seed
mailboxes (Gmail, Microsoft 365 / Outlook, plain IMAP), each mailbox is
searched for it, and the run reports where the message landed (inbox, spam,
junk, tabs, missing), what the authentication headers said, and what the
results point at.

- `src/` is the library, verified with Verus: header parsing, token
  matching, placement classification, the polling schedule of a run (a state
  machine), the diagnostics rules, CSV and HTML reports, provider request
  addresses and reply handling, and the header maps they work on.
  `src/laws.rs` holds the properties proved of the library as a whole.
- `tests/` runs the library on concrete values.
- `app/` is the application around it: the SQLite store, the HTTP and IMAP
  exchanges with the providers, DNS lookups, the loop that drives a run, and
  the commands the user interface calls.
