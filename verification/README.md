# pinaivu-node

GPU provider daemon for Pinaivu's decentralized inference network, with its decisions verified by
Verus.

The node joins the coordinator's libp2p mesh, bids on inference auctions, runs jobs against a local
model server, and reports each job with a signed acknowledgement. For stateful sessions it loads
the conversation so far from Postgres and an encrypted blob, and stores the longer conversation
after each turn.

## Layout

`src/` is the verified library:

| module | what it decides |
| --- | --- |
| `http` | one turn of inference, from the checks on the request to the answer |
| `mesh` | the event loop of the mesh, and jobs dispatched over it |
| `context::assemble` | the window of the conversation that fits the model |
| `context::fetch`, `context::persist` | what a session loads, and what a turn writes back |
| `cipher` | how session blobs are sealed and opened |
| `walrus` | which backend keeps the blobs, where, and under which names |
| `completion` | the proof of a job and the acknowledgement around it |
| `bidder`, `inflight` | what is bid on, and which bids stand |
| `identity`, `config`, `ollama` | keys, startup choices and the request to the model server |
| `encoding`, `bytes`, `text` | digests, hexadecimal, base64, identifiers and strings |

Functions whose names begin with `law_` state what holds of several functions together, or of
whole runs: that nothing runs without a good token and a standing bid, that a refusal always has
its cause, that a token is not served twice, that the window is the longest one that fits, that
loading gives back what was committed.

Calls into outside crates stand behind small functions marked `external_body`. Their doc comments
say what is taken from the crate without proof.

`app/` is the program around the library: command line, HTTP server, swarm, database and files.

`tests/` runs the library on concrete values.
