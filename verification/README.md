# armature_grpc

gRPC server and client support on top of tonic: configuration, interceptors,
middleware, message compression and a limit on received messages.

- `src/` is the library, written in Verus. Every function states what it does,
  and Verus proves it. What is relied on of the crates underneath is stated in
  `buffer`, `codec`, `error`, `headers`, `metadata`, `status`, `text`, `time`,
  `config` and `transport`, at the functions that call them.
- `app/` runs the library's decisions: tower services, HTTP bodies, servers and
  clients that wait for the network.
- `tests/` runs the library with the crates underneath.

The laws that relate several functions are the public functions whose names
start with `lemma_`.
