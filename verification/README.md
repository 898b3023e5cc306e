# urbit_http_api

A client for the Urbit HTTP API, split in two:

- `src/` is the verified library. It holds the client's state and
  every decision it takes: the channel id and the counter of message ids, the
  pokes and subscriptions awaiting answers, the JSON text of the channel
  messages, the parsing of the server-sent event stream and the routing of
  poke answers, the URLs and request bodies, the check of response statuses,
  and the text utilities (`camelize`, `uncamelize`, `hex_string`) and the
  event emitter.
- `app/` is the asynchronous transport around it: HTTP requests with
  `reqwest`, the event stream read with `tokio-util`, timers, the broadcast of
  events, and the error and event types with their `Display` and `Serialize`.

Modules of the library:

| module   | contents |
|----------|----------|
| `text`   | characters and strings: white space, trimming, ASCII case, decimal text, `u64` parsing |
| `utils`  | `camelize`, `uncamelize`, `hex_string`, `EventEmitter` |
| `json`   | JSON string literals, the channel messages, reading the fields of a channel reply, the query of a scry |
| `sse`    | server-sent events, read whole or one line at a time |
| `error`  | the error type and the check of an HTTP status |
| `event`  | the events the client emits, and their text |
| `config` | the client configuration |
| `urbit`  | the client state and its operations |

`tests/` runs the library on concrete values.
