# outify_core

The logic of the Outify Spotify backend, verified with Verus.

- `src/metadata`: playlist metadata as plain values (`source`), Spotify URIs
  and their text forms (`uri`), and the serializable playlist shape built
  from the metadata (`playlist`).
- `src/spotify`: the Web API calls (`api`: the request of each call and the
  decisions on token, response and token renewal), the client's credentials
  and its process-wide slot (`client`), tokens and their loading (`token`),
  the OAuth sign-in flow (`oauth`), search answers (`search`), saved-item
  kinds (`library`) and errors (`error`).
- `src/types`: request bodies and Web API responses.
- `src/text.rs`: hexadecimal and decimal rendering and joining.
- `app/`: the JNI entry points, the reqwest/tokio client that performs the
  steps the library decides, token storage on disk, and serde copies of the
  library's types.
