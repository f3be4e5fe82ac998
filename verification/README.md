# order_book_stream

A service that merges the Binance and Bitstamp depth feeds of one ticker into
a single order book and streams summaries of it to gRPC clients.

The library (`src/`) holds the logic, verified with Verus:

- `price`: prices and quantities as `f64` bit patterns; the integer key that
  orders prices (NaNs equal and highest, `-0.0` equal to `0.0`), and the test
  for a positive quantity, with the laws that tie both to `f64` order.
- `book`: one side of the merged book, levels sorted by (price, exchange)
  with positive quantities; applying snapshot levels, and the laws of
  read-back, last write, exchange isolation and the depth cut.
- `order_book_stream`: the merged book of both exchanges, cut to the best
  `MAX_DEPTH` levels a side, its best prices and its summary.
- `grpc_server`: the summary streamed to clients.
- `data_providers`: the feeds' decisions: which snapshots are handed on (only
  newer ones), the Bitstamp subscription request and the check of its answer.
- `net_utils`: which failures are retried, the retry budget, the handling of
  WebSocket messages, the host and port of a URI, the reconnection decision.
- `types`: the snapshot handed from a feed to the book, and the exchanges.

`app/` is the program around it: the async connection loops, JSON decoding,
TLS, the gRPC service, the backoff arithmetic and `main`.
