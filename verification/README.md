# blog_handlers

The request-handling core of a blog backend (posts, games, projects,
audiobooks, media, site sync), written in Verus. The checks and computations
of the HTTP handlers are executable functions whose contracts state their
results; for the handlers that write (creating, updating and deleting games,
projects and posts) a plan states the order of their outside work, where a
refusal stands in it, and what undoes a failed step. Properties that span
functions are proved as laws. Transport, storage and the services the
handlers call are outside the library.

Layout:

- `src/` — the verified library.
  - `text`, `numbers`, `paths` — strings as character sequences, decimal
    parsing and rendering, Unix paths as `Path::components`/`Path::join` see them.
  - `shortnames`, `posts` — rewriting media references in content into usage indices;
    newsletter campaign links.
  - `zipread`, `archive`, `confinement` — reading uploaded zip archives and
    planning their extraction; the laws that no planned file leaves the demo directory.
  - `jsdos`, `digest`, `v86`, `v86_storage` — chunked js-dos uploads, bundle hashes,
    v86 system switches, which stored v86 objects a project may drop.
  - `demos`, `links`, `project_links`, `multipart`, `media_intake`, `audiobooks` —
    what create and update requests must carry.
  - `serving`, `timestamps`, `urls` — byte ranges, media locations, the answer to a
    media request; UTC timestamps in responses; the http(s) rule for stored links.
  - `trash`, `access`, `syncing` — trash lifecycle, roles and paging, sync keys.
  - `flows`, `plans`, `game_update` — the step function that runs a handler's
    plan, and the plans of the writing handlers.
  - `handlers`, `domain`, `errors` — the wire shapes, stored entities and errors.
- `tests/` — tests of the library on concrete values.
- `app/` — the I/O around it: zip archives on disk, streamed media, usage maps,
  multipart bodies, and the loop that runs a plan.
