# apibara_dna

Storage of chain segments and the subscription to new block heads, verified with
Verus.

* `src/` is the library. It decides which objects are read and written, under
  which keys and conditions, what the replies mean, and what a websocket is told.
  It does no input or output: an operation hands out a request, and `resume` takes
  the reply.
* `app/` performs the requests, against Google Cloud Storage and a websocket.
* `tests/` runs the library on concrete values.

| Module | What it holds |
| --- | --- |
| `chain_store` | reads and writes of segments, past a cache or through it |
| `names` | the keys of segments and snapshots |
| `archive` | the binary form of a segment (`rkyv`) |
| `gcs`, `client`, `object_store` | object store backends |
| `ws`, `block_id`, `json` | the subscription to new heads |
| `decimal`, `buffer`, `clock` | numbers as text, byte buffers, the time |
| `chain_laws`, `gcs_laws` | what holds across operations |
