# udsplitter

A pair of SOCKS5 proxies that sends the two directions of a connection over two
different upstream paths.

The client program listens for SOCKS5 clients. For each connection it asks two
upstream SOCKS5 proxies for the same address, one for the way up and one for the
way down, and tells each of them a connection id. The server program, reached
through both upstreams, recognises the two streams of a session by their ids
and joins them to one connection to the address.

- `src/` is the library, written in Verus: ids, the table of waiting sessions,
  and the protocols as machines from events to actions.
- `app/` holds the two programs around it: sockets, timers and configuration.
  It is one executable; started as `udsplitter-server` it is the server,
  otherwise the client. The first argument is the path of a JSON configuration.
- `tests/` runs the library.

Client configuration:

    { "listen": "127.0.0.1:1080", "up": "10.0.0.1:1081", "down": "10.0.0.2:1081" }

Server configuration (`timeout_ms` may be left out and is then 1000):

    { "listen": "0.0.0.0:1081", "timeout_ms": 5000 }
