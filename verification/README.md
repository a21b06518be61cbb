# api_ads

The category store behind the ads GraphQL API, as a Verus-verified library.

- `src/` holds the decisions: cache keys (`cache_key`), what a cache read can
  answer (`cache`), cache-aside read plans (`read`), mutation plans and the
  cache entries they retire (`write`), the `Query`/`Mutation` operations that
  produce those plans (`engine`), the category records and their conversions
  (`category`), record-id parsing through SurrealDB (`record_id`), settings
  from the environment (`env`), protobuf enum-field encoding (`enum_codec`),
  errors and the interface objects. `laws` proves what mutations do to the
  cache.
- `app/` runs the plans against SurrealDB and Redis, encodes cache entries
  with bincode, and starts the program.
