# race_of_sloths

The rules of the Race of Sloths, a bot that rewards contributors to open
source projects for pull requests that maintainers score, written in Verus
with their contracts proved.

`src/` is the verified library:

- `period_data`, `streak`, `account`, `pr`: what the contract keeps of a
  contributor (counters per period, streaks, bonuses) and of a pull request
  (votes, merge, rating inputs), with the laws their updates obey.
- `timeperiod`: the identifiers and boundaries of days, ISO weeks, months and
  quarters, on top of chrono's calendar.
- `text`: decimal rendering, substring search and whitespace splitting.
- `commands`, `events`, `bot`, `lifecycle`: reading the commands addressed to
  the bot in GitHub comments and deciding the replies and contract calls for
  each command and for merged, stale and finalized pull requests.
- `records`, `responses`, `badge`: the web API's answers and the badges drawn
  from a user's records; `render`: the badge's SVG written back and drawn as
  PNG through usvg and resvg.
- `stats`: the weekly and monthly statistics of pull requests with and
  without the bot.
- `health`: the heartbeats of the background tasks.
- `messages`: the status comment and the messages sent to Telegram.

`app/` holds what runs around the library: the Telegram sender, the health
watchdog, the GitHub client, the runner of the bot's plans, the statistics
job, badge drawing, the floating-point rating and the serde forms of the web
responses.

`tests/` exercises the library on concrete values.
