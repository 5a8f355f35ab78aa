# bottle_bot

A message-in-a-bottle service for chat servers. A user opens a message with
`>` to push a bottle into the sea, with `->` to reply to the last bottle of the
channel, or with `->>` to reply to the last bottle the channel received. Bottles
wash up in other servers' bottle channels together with the thread they belong
to; admins ban authors and delete bottles with reactions; users earn experience
for bottles, links, images, replies and reports, and can see it on web pages.

Layout:

- `src/` — the library, written and proved with Verus:
  - `text.rs`: decimal notation, trimming, prefixes;
  - `model.rs`: records, constants, page addresses, the clock;
  - `push.rs`: the decisions on a new message (prefix, ban, cooldown, length,
    reply target, tickets, experience), as a state machine;
  - `react.rs`: the decisions on a reaction (bans, reports, deletions), as a
    state machine;
  - `deliver.rs`: the thread of a bottle and the channels that receive it;
  - `bottle.rs`: how a bottle is shown, notices, experience credits;
  - `web.rs`: sessions, the sign-in callback, the report reward.
- `tests/` — tests of the library on concrete values.
- `app/` — the program: the chat bot, the database, the delivery loop and the
  web server, which carry out what the library decides.
