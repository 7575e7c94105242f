# detrix_testing

End-to-end tests for a Detrix daemon: one set of scenarios that runs against the MCP, gRPC, REST
and command line backends of the daemon, with debuggers for Python, Go and Rust.

`src/` is the verified library. It holds what the tests decide and compute: the requests and the
meaning of the answers of each backend, the calls that take several requests, the scenarios and
workflows as machines that ask for one action at a time, the reporter, the port registry, the
commands that start daemons, debuggers and clients, and the machines that watch them start. Each
function states what it returns; theorems whose names begin with `law_` relate several of them.

`app/` performs what the machines ask for: processes, sockets, files and time.

`tests/` runs the library on given values, with a daemon and clients that are simulated.
