# discord_bot

The decisions of a small Discord bot, verified with Verus.

- `src/` is the library. `text` compares, trims, prints and reads decimal
  text; `game` holds the objects and rule sets of rock, paper, scissors and
  decides and announces a duel; `duel` is a duel in progress, from the
  invitation to its conclusion; `command` describes slash commands as plain
  data; `commands` holds one module per slash command (`calc`, `rps`,
  `rock_paper_scissors`, `test`) with its registration and its replies;
  `handler` reacts to messages, routes invoked commands and describes the
  global command.
- `app/` is the bot itself: it connects to Discord with serenity, turns the
  library's descriptions into serenity's builders, and sends what the
  library decides.
- `tests/` runs the library on concrete values.
