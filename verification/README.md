# ipc

The request and response layer between a native application and the JavaScript
in its webviews, verified with Verus.

- `src/` is the verified library.
  - `json`: JSON values of `serde_json`, and the trees that contracts speak of.
  - `decimal`: integers as decimal text.
  - `bigint`: how numbers that JavaScript cannot hold are written.
  - `serializer`: how every kind of value becomes JSON.
  - `body`: payloads of requests and responses.
  - `response`: the two ways in which an invoke is answered.
  - `resolver`: handing a response to the responder, once.
  - `message`: invoke messages and requests.
  - `laws`: what holds of the serialized JSON, kind by kind.
  - `data`: whole values as plain data, their responses, and what holds of those.
- `app/` joins the library to `serde`, to the lock around a responder and to an
  async runtime. It is not verified.
- `tests/` runs the library.

The functions that call other crates are marked `external_body`; the comment
above each says what is taken on trust.
