# rsoundio

A binding to the libsoundio audio library.

- `src/` is the library, with its contracts and proofs:
  - `enums.rs`: the libsoundio enumerations (errors, backends, sample formats,
    channel ids) and the conversion between each value and its C code;
  - `base.rs`: the decisions taken on what libsoundio returns (status codes,
    "none" markers, negative counts, null objects, range checks for backends,
    builtin and default channel layouts, the position of a best-matching
    layout) and the handling of the application name;
  - `text.rs`: the reading of C strings as UTF-8 and the read-after-write law
    for the application name;
  - `stream.rs`: the output stream handle.
- `app/` holds the C declarations and the public types that make the calls into
  libsoundio and hand the results to the library.
- `tests/` exercises the library on concrete values.
