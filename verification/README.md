# vault_storage

The storage layer of a card vault: merchants, each with a data-encryption key
sealed under a master key, and locker entries holding payment data sealed
under the merchant's key.

- `src/` is the verified library (Verus).
  - `types.rs`: the records, plaintext and sealed, and sealing/unsealing with
    a cipher; the round-trip laws (what is stored reads back).
  - `db.rs`: each storage operation (find, find-or-create and insert of a
    merchant; find, insert-or-get and delete of a locker entry) as a state
    machine whose steps name the database work to do next.
  - `crypto.rs`: the cipher interface, and predicates over what a cipher
    answered (`call_ensures` of its methods).
  - `error.rs`: the storage errors and the query failures the logic tells apart.
- `app/` is the database side: the Postgres pool, the diesel schema and rows,
  and the async interfaces that perform the work each step asks for.
- `tests/` runs the records and the state machines with a toy cipher.
