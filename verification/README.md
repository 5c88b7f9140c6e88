# pika_first_setup

The decisions of the PikaOS first-setup wizard, verified with Verus, and
the GTK/libadwaita program around them.

- `src/` is the verified library:
  - `text`: character classes, case mapping, the 32-byte field limit,
    suffix trimming and substring search;
  - `pattern`: the two regular expressions of the user form (`regex`);
  - `user_form`: the account page as a state changed by field edits, and
    the account-creation command;
  - `navigation`: the page order, the forward and back buttons;
  - `connectivity`: the internet page and its probe;
  - `install`: the update, driver and codec pages and their commands;
  - `translations`: the per-locale tables read from JSON files (`serde_json`);
  - `welcome`: the issue-tracker address of the about dialog.
- `app/` builds the window, runs the commands and threads, reads files and
  the environment, and shows the library's state.
- `tests/` exercises the library on concrete values.
