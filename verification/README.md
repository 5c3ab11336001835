# motorbot

MotorBot is a Discord bot whose plugins tell jokes, post game patch notes,
keep vote scores, answer pings, toss coins, roll dice and tell the time.

- `src/` is the verified library (Verus): the plugins' decisions and replies,
  the text encoding of guild configuration entries in the database, the
  parsing of Steam and Riot news into patch notes, and the character-level
  string functions they rest on.
- `app/` is the bot itself: the Discord client (serenity), the SQLite
  database (rusqlite), the HTTP requests to Steam, Riot and the jokes API,
  and the schedulers. It hands what it reads to the library and sends what
  the library answers.
- `tests/` exercises the library on concrete values.
