# linkerd_middleware

The decision logic of the middleware of a service-mesh proxy, verified with Verus: how a
resolution is recovered, how a shared service is locked, how connections are accepted with or
without TLS, how requests are buffered, and how the messages of a control plane are read.

- `src/` is the library. It holds no I/O: where sockets, channels, timers or other services
  have to be polled, the library says what is to be done and takes the outcome as an event.
  Calls into other crates stand behind small functions whose contracts are believed.
- `app/` drives the library with an asynchronous runtime.
- `tests/` runs the library.

Each module states what its functions do in their contracts. What holds over several
functions is stated in public proof functions whose names start with `law_`.
