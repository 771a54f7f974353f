# aionui_core

The rules of the AionUi server, written in Verus and proved against their contracts:

- `auth` — who may call what: the scoped agent-runtime token rules, the private-asset
  gateway check, and the steps of request authentication.
- `workspace` — personal workspaces: names, managed directory layout, and the steps by
  which a reference is resolved to a workspace the user owns or a new one is made.
- `db` — ownership of stored resources (own and shared), the ownership subject key,
  and how outcomes of statements are reported.
- `skills`, `skill_bridge` — skill storage keys and upsert/delete rules; where a
  workspace's skills are staged for the agent's loader.
- `translation` — the choice of provider and model for message translation, the settings
  an engine runs with, the prompts, the collection of the streamed answer and its check.
- `text`, `api_error` — character-level helpers and HTTP-facing errors.

Operations that alternate outside work and decisions (authentication, workspace
resolution) are step functions: they say what to do next, and are handed back what came
of it. Elsewhere the library decides what to ask (which providers a translation looks
at) and what follows from the answer, and `app/` makes the call in between. `app/` runs
all of this with axum, sqlx and tokio; building and running the agent engine itself is
left to the host, which applies the translation settings the library fixes.
