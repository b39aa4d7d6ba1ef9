# bendy_fs

The verified core of Bendy FS Server, a multi-tenant file-storage proxy that
runs as a Cloudflare Worker in front of S3-compatible stores, Dufs servers
and Redis over REST.

`src/` is checked by Verus. It holds what the service computes and decides:

- `sigv4`: AWS Signature V4 (presigned URLs and `Authorization` headers);
- `jwt`: URL-safe base64 and HS256 tokens, with the claims of tenant tokens
  and admin sessions;
- `session`, `oauth`: the admin list, session cookies, the GitHub sign-in
  exchange and the admin-token fallback;
- `tenants`: credential checks, daily request and storage quotas, tenant
  records, uploads and previews;
- `backends`: the requests sent to each kind of backend and how their
  answers are reported;
- `config`, `handlers`: configuration records and their index, query
  parameters, presigned-URL requests, audit entries, health summaries and
  CORS headers;
- `text`, `encoding`, `dates`, `ids`, `types`: the building blocks.

Hashing, HMAC, base64, hex, JSON string escaping, UUIDs and the clock come
from their crates through small wrappers whose contracts are trusted.

`app/` is the Worker itself: routing, Workers KV and D1 storage, the HTTP
calls, and the serde forms of the library's types. `tests/` runs the library
with the real crates linked.
