# counter_worker

A counter service for Cloudflare Workers: each named counter lives in a
durable object that serves its count over GraphQL, and a front worker proxies
GraphQL queries to those objects.

- `src/` is the verified library (Verus): the REST command paths of a
  counter document (`Commands::query_string` renders a mutation's value in
  decimal and substitutes it into the route, proved to read back), the count
  arithmetic of a document, and the decisions the proxies and resolvers take
  on the replies they receive.
- `app/` is the worker itself: request conversion between the worker runtime
  and tide, durable-object storage, the GraphQL schemas and the async proxies.
- `tests/` exercises the library on concrete values.
