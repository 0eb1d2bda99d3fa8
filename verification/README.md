# profit_rat

The economy rules of the Profit Rat Discord bot, a play-money prediction
market for Discord servers, written in Verus and proved against their
contracts.

- `src/` is the verified library: market and option rules, trades and share
  offers, settlement and its reversal, loans, donations and repayments,
  bonds and the bot's own buying policy, periodic claims, configuration
  merging, command catalog differences, the parsing of typed times, ids and
  Manifold links, and the text the bot renders. Calls into `chrono` and
  `url` stand behind small trusted wrappers whose contracts are documented
  where they are declared.
- `tests/` runs the library on concrete values.
- `app/` is the bot around it: configuration files and the environment,
  logging, the SQLite database, the Discord client, the Manifold HTTP client,
  the background workers, and everything that computes with floats (market
  scoring prices, share quantities, bond compounding, charts).
