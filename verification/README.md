# button_attach_bot

A Telegram bot that reposts a user's content to a channel, a group or back to
the user, with styled inline URL buttons attached.

- `src/` is the verified library: the conversation as a state machine (each
  update in each state gives the list of effects to perform, stored states
  included), the keyboards and request bodies sent to the Bot API, how its
  answers are read, the admin commands' parsing and replies, and the
  configuration. `src/laws.rs` states and proves properties that span updates.
- `app/` is the bot runtime: the dispatcher, HTTP calls, the SQLite analytics
  store and the environment. It performs the effects that the library decides.
- `tests/` runs the library on concrete values.
