# jagad_shalawat

The engine of the Jagad Shalawat blog (Indonesian and English articles,
threaded comments, an admin area), written in Verus.

- `src/` is the verified library: the content filter, the comment rules and
  the comment submission state machine, comment threading, post editing
  (slugs, tags and sources JSON, excerpts, reading time, publication times),
  image uploads (decode, scale, WebP encoding), the forgotten-password step,
  the SEO markup, RSS and sitemap documents, cache keys and invalidation
  plans, the rate limit, access rules, configuration and error answers.
  Calls into outside crates (comrak, ammonia, chrono, md-5, hex, url,
  urlencoding, slug, serde_json, argon2, image) stand behind small trusted wrappers
  whose contracts name what those crates compute.
- `app/` is the server around it: actix-web handlers, MySQL queries, Redis,
  SMTP, OAuth and Turnstile requests, reading uploads and templates. Each
  handler asks the library what to do and performs the I/O.
- `tests/` runs the library on concrete values.
