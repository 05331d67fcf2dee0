# server

The request logic of a small card-payment server: cards that carry a
balance, products with a price and a stock, and orders paid for with a card
and handed out later.

- `src/` is the verified library. Each request is a sequence of steps: a
  function reads the request body and says what to ask of the store first,
  and one function per answer from the store decides what to do next, until
  the answer to the request is known. `balance`, `card`, `product` and
  `order` hold these steps; `text` holds the verified parsing and printing of
  numbers and lists; `encoding` and `entropy` hold the calls into `hex`,
  `rand`, `uuid`, `chrono` and std that the steps make.
- `app/` is the HTTP server (axum) and the SQLite store (sqlx): it runs the
  queries that the steps ask for and hands back what the store answered.
