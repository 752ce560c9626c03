# Musicboxd

A server on which people search for albums, rate them and follow each other.
Users sign in through Google or GitHub; albums come from Spotify and are cached
in SQLite.

- `src/` holds the server's decisions as a library, verified with Verus. What a
  decision needs from outside (a row of the database, an answer of Spotify, a
  fresh identifier) is handed to it, and what it wants done it returns: a *step*
  names the work to do next, and its `then` takes what came of it.
- `app/` is the server around the library: routes, pages, running the statements
  and HTTP.
- `tests/` runs the library, the statements of `src/store.rs` on a database in
  memory included.

| Module | What it decides |
| --- | --- |
| `session`, `signin`, `oauth`, `username` | sessions and their cookies, signing in, names of new users |
| `spotify`, `search`, `albums`, `refresh`, `relevance`, `catalog` | access tokens, searching, looking up and refreshing albums |
| `profile`, `follow`, `ratings` | profiles, followers, ratings |
| `view` | what the pages show |
| `rate_limit` | how many requests an address may make |
| `store` | the statements on the database |
| `text`, `json`, `headers`, `ids` | texts, stored JSON, request headers, fresh identifiers |

Calls into other crates stand behind functions marked
`#[verifier::external_body]`; their doc comments say what is claimed of them.
