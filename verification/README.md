# Atticus

A small desktop API runner. `src/` is the verified library:

- `request_methods`: the HTTP methods, their display text, which carry a body,
  and the method the outgoing request is built with.
- `auth_methods`: how a request authenticates.
- `collections`: saved requests and collections, with their values.
- `header_list`: the contract of the `im::Vector` calls that header lists use.
- `workspace`: the editing state behind the window (save, find, delete, load,
  add and remove headers) as a refinement of `WorkspaceView`, with its laws.
- `request_plan`: how a request is sent (method, body, headers, bearer token).
- `response_tabs`: the response tabs, their captions and positions.
- `status`: the progress lines of a send and the JSON layout of the answer.

`app/` holds the window (floem), the file storage (serde_json) and the
network calls (reqwest); `tests/` runs the library on concrete values.
