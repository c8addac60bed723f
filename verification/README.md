# guild_bot

The decisions of a small Discord guild bot, verified with Verus.

- `src/` is the library: reading the configuration file's settings
  (`models::bot_config`), the per-guild configuration row
  (`models::guild_config`), the guild-prefix cache (`managers`, `utils`), the
  command checks and every command's decision and answer (`commands`), the
  log line of a ready shard (`events`), decimal numbers and string tests
  (`text`), and the few computations taken from `serenity` (`discord`).
- `app/` is the bot itself: it reads `config.toml`, talks to Discord through
  `serenity` and to PostgreSQL through `sqlx`, and carries out what the
  library decides.
- `tests/` runs the library on concrete values.
