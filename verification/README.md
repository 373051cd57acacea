# triemeta

The metadata of a paged trie database, and the transactions that run on it, verified with Verus.

* `src/meta/` holds the metadata: two copies of the fixed part, protected by a hash and written in
  turn, and the list of orphaned pages. `model.rs` says what the metadata is, what its stored form
  is and how each operation changes it; `laws.rs` states what follows, most of all what
  opening the file gives after a crash before or during a commit.
* `src/transaction/` holds the transactions: the changes that they accumulate, and the order in which
  a commit, an abort or a root computation proceeds. A transaction answers each event with the next
  step; it touches no storage itself.
* `app/` performs those steps, and keeps the metadata in a memory-mapped file.

What the proofs take on trust: the hash of a slot is a function of its bytes (`src/meta/hash.rs`), the
map of pending changes behaves as a map (`src/transaction/pending.rs`), and the byte order of the
machine, in which numbers are stored, does not change (`src/bytes.rs`).
