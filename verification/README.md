# gc_rust

The verified core of a study garbage collector for CoreCLR that never
collects ("ZeroGC"): it retains every object for the process lifetime.

- `src/` is the library, verified with Verus:
  - `alloc_flags` — `GC_ALLOC_FLAGS` bit sets, containment and their text form;
  - `object` — opaque managed-object addresses;
  - `gc_heap` — object layout, the allocation ledger (admission against a byte
    limit, recording of native blocks, the end-of-run report) and the
    collection-policy answers of a heap that never collects;
  - `config` — the byte limit chosen from the environment setting;
  - `segment` — validation and overlap-free registration of frozen segments;
  - `runtime` — result codes, write-barrier requests and one-time installation
    of the runtime's callback table.
- `app/` is the C ABI surface: exported entry points, `repr(C)` mirrors of the
  library's types, native allocation, handle slots updated with atomics, the
  process environment and printing.
- `tests/` exercises the library on concrete values.
