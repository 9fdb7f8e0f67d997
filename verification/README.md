# loco_laravel

The verified core of a Loco web application with JWT authentication.

- `src/routing.rs`: route tables as plain values (groups of
  `(uri, method, handler)` entries and the groups mounted on the app).
- `src/controllers/home.rs`: the landing and demo pages and their routes.
- `src/modules/`: the feature-module registry and `register_routes`.
- `src/modules/auth/`: the auth module: its API and page routes, the form
  parameters, and the browser-facing pages (`web.rs`), written as steps
  from the outcome of outside work to the next piece of work or the answer.
- `app/`: the async handlers that perform that outside work (session
  lookup, user store, mailer, token issuing) and turn the library's answers
  and route tables into framework responses and routes.
