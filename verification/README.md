# botshop

The logic of a Discord shop bot for a SCUM game server, verified with Verus.

Members register their Steam id, collect coins, and buy items by pressing buttons posted in shop
channels; a purchase types commands into the game's console. Administrators credit coins and
repost the shops. Members can start clean-up runs that remove dropped items, which also run on a
timer, and a schedule of server restarts decides when the shop pauses.

- `src/` is the verified library:
  - `text`: character-level text operations (words, prefixes, search and replace, trimming,
    integer parsing), each specified over `Seq<char>`;
  - `command`: the chat commands read from a message;
  - `shop`: the catalogue, the lookup of a pressed button, the commands a purchase sends;
  - `config`: the configuration tables and the VIP role that applies to a member;
  - `account`: coin balances, registration and coin grants;
  - `purchase`: the decisions of a purchase as a state machine;
  - `cooldown`: per-player, per-button purchase cooldowns in a `dashmap::DashMap`;
  - `destroy`: clean-up runs as sequences of steps (waits, the clean-up lock, lines to send),
    the routing of button presses, the lines typed into the console;
  - `maintenance`: the restart schedule, on `chrono::NaiveTime`; because 23:58 heads its list of
    restart times, the schedule plans a wait at every time of day and never pauses the shop
    (`lemma_schedule_never_pauses`).
- `app/` is the program around it: Discord (serenity), the SQLite database (rusqlite), reading
  `botshop.json` (serde), the background tasks (tokio) and typing into the game window (windows).
- `tests/` runs the library on concrete values.
