# rustboard_api

A message-board backend: posts, comments on them, accounts with password
login and bearer tokens, and live notifications of new comments over a
WebSocket.

- `src/` is the library, verified with Verus: the rules of the board
  (what a post or comment must look like, who may change or remove a
  post, how a page of posts is cut and its cursor written), the in-memory
  post store, the error answers, password checking and rehashing, token
  claims, the notification session's state machine, and the decisions of
  the HTTP middleware (IP guard, rate-limit key and answer, request ids).
- `app/` is the server around it (axum, sqlx, tracing): it reads settings,
  talks to PostgreSQL, signs and checks tokens, and runs the socket loop,
  handing plain values to the library and sending back what it decides.
- `tests/` runs the library on concrete values.

Routes: `/health`, `/version`, `/signup`, `/login`, `/me`; the PostgreSQL
posts with their authors under `/posts` (numbered pages) with comments under
`/posts/{post_id}/comments`; the in-memory board under `/board/posts`
(cursor pages, edits and removal by the author or an administrator);
`/ws/notifications`; the API document under `/swagger-ui`.
