# anki_sync

The client side of syncing a collection of flashcards with its server, as a library whose
behaviour is stated in contracts and proved with Verus.

The library does no I/O. A sync is a string of calls to the server and to the collection's
storage; the library says which call comes next, with what arguments, and what to make of the
reply. A call carries the thing that waits for its reply, and `resume` on that gives the next
call. The crate under `app/` carries the calls out.

- `state`: what the two sides say of themselves, and which kind of sync it takes
- `syncer`, `session`: the course of a normal sync, and of the transaction that it runs in
- `graves`, `chunk`, `changes`: what is sent, and in which portions
- `steps`: a list of things for the storage to do, up to the first error
- `merge`: how what is received is merged into the collection
- `sanity`: the comparison of the two sides at the end
- `transfer`: login, status, and the upload or download of the whole collection
- `objects`, `text`, `ids`, `progress`, `error`, `collection`: the types these work on
- `newest`, `pending`, `run`: what holds of every merge, of what waits to be synced, and of every
  sync from its start to its end
