# novavm

The verified core of a host for the Move VM that runs inside a Cosmos chain
through an FFI boundary. Each function in `src/` carries a Verus contract and
is proved against it.

- `src/` — the library, verified with Verus:
  - storage size accounting (`size_change_set`, `session`), per-account
    deltas as reported to the host (`size_delta`, `result`);
  - table metadata: owners and sizes of tables, the buffered cache over the
    stored metadata, and how a transaction's table changes move stored
    bytes between accounts (`table_meta`, `address_finder`, `key_order`);
  - state-key and metadata encodings (`state_key`, `bcs_format`);
  - call argument checks (`args_validator`), module bundle checks
    (`publish`), message routing, keep-or-discard of a finished message
    and the outputs of failed ones (`vm_flow`, `message`, `vm_status`);
  - errors at the FFI boundary (`rust_error`, `backend_error`, `memory`,
    `vm_error`), the results of the host's store, block and query
    callbacks (`backend_error`), the host iterator's steps (`iterator`);
  - the state view and the resolver that records stored sizes (`storage`),
    an in-memory store (`mock_db`), compiler command options (`compiler`),
    native gas tables (`gas`), the chain callbacks (`backend`), the named
    addresses of the standard packages (`asset`).
- `tests/` — tests of the library on concrete values.
- `app/` — the host-facing side: serializable copies of the result types,
  error types with their display texts, and the FFI helpers that hand out
  raw pointers or write into the host's store, and the version string.
