# channel_bench

A latency benchmark for Rust message channels (kanal, flume, tokio,
async-channel, crossfire, thingbuf, tachyonix, postage, async-broadcast,
rtrb, ringbuf, crossbeam, omango, npnc, magnetic), with its decisions
verified in Verus.

- `src/` is the verified library: the experiment lists and their order
  (`experiments`), the sender's script for one experiment (`sender`), the
  receiver's reaction to each poll (`receiver`), the messages and their
  payload (`message`), and the names of the latency logs (`logs`).
- `app/` is the program: it pins threads, builds runtimes and channels,
  performs what the library decides, and writes the logs.
- `tests/` exercises the library on concrete values.
