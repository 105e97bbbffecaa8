# websocket_rust

The verified core of a location-aware chat service: users share their
position on a map, see who is near, and exchange text and video-call
signalling messages over WebSockets, with Redis as the shared store and
message relay.

- `src/` is the library, proved with Verus:
  - `message`: chat messages, their text form, and to whom a relayed
    message is delivered (broadcast or one recipient);
  - `websocket`: a user's session as a step function from events to
    actions, and the key of a user's video-call lock;
  - `position`: the replies of the position endpoints, the key pattern of
    a user listing, and which fetched users a listing keeps;
  - `retry`: the bounded connection-retry policy;
  - `lock`: the Redis lock (key, random owner token, acquire command,
    release script);
  - `connection`: opening Redis clients and pool managers from a URL;
  - `channel`, `service`: the relay channel and a subscriber's steps, pool
    settings and the reply when Redis is unreachable.
- `app/` is the server around it: axum routes, Redis and WebSocket I/O,
  JSON forms of the library's types.
- `tests/` runs the library on concrete values.
