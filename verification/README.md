# phenotype-shared

The shared domain model of the Phenotype system, written in Verus.

- `src/value_objects`: identifiers, names, statuses, priority and timestamps,
  validated at construction.
- `src/entities`: the agent and task entities and their state machines.
- `src/aggregates`: the agent aggregate root, its commands, its event log and
  its reconstruction from events.
- `src/events`: agent and workflow events.
- `src/config`: the configuration store, environment keys, JSON and YAML
  documents and their flattening, and reading flags and counts.
- `src/adapters`: adapter configurations, HTTP method names and header
  checks, SQL statements for the entity table, and reading Redis and
  PostgreSQL replies.
- `app/`: the asynchronous adapters (files, environment, HTTP, PostgreSQL,
  Redis) that perform the I/O around the library.
