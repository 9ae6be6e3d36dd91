# kasu

A Slack bot that answers in threads and keeps restricted channels
restricted: it reads the real-time event stream, turns messages into
commands, and runs the channel-management steps (setting a channel up,
removing a member, vetting people who join).

The library under `src/` holds the bot's logic, verified with Verus:

- `text`, `ids`, `parser`: character classes, Slack ids and mentions, and
  the grammar of command arguments, with its spec functions.
- `event`, `context`, `handler`, `cmd`, `callback`, `transform`: events,
  the context a handler receives and when a handler runs, command
  splitting and argument parsing, reply callbacks.
- `api`, `model`, `client`: the multipart requests sent to the web API and
  what is read from the responses; the bot's session.
- `flow`: the channel-management handlers as step machines, with the
  access rules they keep.
- `ws`, `state`, `handlers`, `redact`, `env`: connection keep-alive and
  reconnection, profile picture switching, message responses, token
  redaction in logs, configuration parsing.
- `bridge`: the calls into `serde_json`, `uuid`, `rand`, `tokio-retry`,
  `urlencoding` and std whose contracts are trusted.

`app/` is the program around it: configuration, logging, HTTP, the
WebSocket connection, the database and the task loops. `tests/` exercises
the library.
