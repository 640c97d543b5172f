# signal-sema-storage

The typed contract of the central Sema daemon: the messages it accepts and
sends, the document roots it stores, and the laws those roots obey. The
contract owns no actors, sockets or durable state.

- `src/` is the verified library (Verus).
  - `ids.rs`: scalar identifiers, keys and the wire version.
  - `roots.rs`: the signal-contract, nexus-runtime and sema-storage roots,
    their mathematical models, and `validate`, proved to return exactly the
    first law a root breaks.
  - `payload.rs`: document payloads, their kind and validation, the
    projection onto their content identity (every name table emptied), and
    the BLAKE3 digest that turns an encoded identity into a content hash.
  - `laws.rs`: names are excluded from identity, identity plus names give
    the payload back, names play no part in kind or validation, each root
    validates alike whatever the order of its lists, and dropping relations
    or routes from a valid root keeps it valid.
  - `messages.rs`: requests, replies, rejections and the identity-authority
    vocabulary.
- `app/` is ordinary Rust: rkyv-archivable copies of the contract's types,
  the request/reply codec, and the content hash of a payload (rkyv encoding
  of its identity, digested by the library).
- `tests/` exercises the library.
