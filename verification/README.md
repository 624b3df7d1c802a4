# qbit

A client for the qBittorrent Web API (version 2), written in Verus.

The library (`src/`) holds what the client decides, each function with a
contract that Verus proves:

- `encode`: how numbers, booleans and lists are written as parameter text;
- `params`, `request`: parameter lists and the shape of a prepared request;
- `endpoint`: every endpoint the client calls, with its path, HTTP method and
  the parameters it sends in its query, form or multipart body;
- `client`: the client's host and credentials, reading them from environment
  values, the request that each call makes, and how a response status is judged;
- `url_text`: the URL parsing and joining, done by the `url` crate behind two
  trusted wrappers;
- `laws`: properties proved over all inputs (lists and numbers read back as
  written, where each request carries its parameters, what a login sends, and
  that a client made from the environment is the client of the values read).

`app/` sends the prepared requests with `reqwest`, keeps the session cookies in
a `reqwest_cookie_store` jar, reads environment variables and torrent files, and
formats the float share ratio.
