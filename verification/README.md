# pbs_stage

The block-engine stage of a validator. While a session with a block engine is running, the stage
shares verified packets with the block engine, holds them back from the banking stage for a short
time, and takes bundles from the block engine's stream to the bundle stage.

- `src/` is the library: what the stage decides, stated in contracts and proved with Verus.
  - `forwarder`, `delayer`, `slot`: where packets go, how long they are held back, and how slots are
    followed; `pipeline` is about the way of a batch through the first two.
  - `stage`, `session`, `config`, `settings`: when a session is begun, how it comes about, and what
    its end amounts to.
  - `consumer`, `bundle`, `packets`, `transaction`, `stats`: what a running session does with
    bundles and packets, and what it counts.
  - `solana`, `grpc`: the calls into the Solana and gRPC crates, each with what is taken to hold of
    it.
- `tests/` runs the library on concrete values, with the outside crates linked.
- `app/` is the stage as a thread with its tasks, timers and channels. The banks, the block
  producer, the cluster identity and the block engine's generated client are handed in through
  small traits.
