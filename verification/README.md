# wvwasi

A WASI preview 1 host for scripts running in a web view. Scripts send each
system call as a request on the `wvwasi` custom protocol, to the path
`[/instance]/wasi_snapshot_preview1/call`, with the call's integer arguments as
a JSON array in the body; the answer is a JSON array whose first element is the
WASI errno.

- `src/` is the library, with its contracts and proofs:
  - `route` decides what a request path asks for (a new instance, a call on an
    existing instance, or nothing), with the laws that tie paths to calls;
  - `method` lists the calls, their argument types and their path segments;
  - `request` decodes request bodies (UTF-8, then serde_json) into arguments
    checked against the call's declared types;
  - `response` frames the answers;
  - `decimal` renders and reads decimal numbers;
  - `options` holds the preopen options of an instance.
- `app/` is the host around it: the instances on wasi-common, the shared memory
  with the web view, and the protocol handler on the web view builder.
- `tests/` runs the library on concrete requests.
