# dns-lookup-service

Asks a set of DNS servers for the A and AAAA records of a host name and
reports every answer with the server that gave it, its address type and the
time the query took. It runs as a command-line lookup or as an HTTP service.

- `src/` is the verified library: options and their defaults (`config`), the
  queries a lookup sends and how responses become results (`lookup`), the
  web service's routes and reply bodies (`webserver`), `host:port` text
  (`net`), and properties that span these functions (`laws`).
- `app/` is the program around it: reading the command line and the TOML
  config file, sending the queries over UDP, reading the clock, and serving
  HTTP.
- `tests/` runs the library on concrete values.
