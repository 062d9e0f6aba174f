# event_collector

An event collector service: clients post events to a webhook, the events are
kept as pending rows in SQLite, and a retry round forwards each pending event
to every enabled destination (RabbitMQ queues or Kafka topics), deleting the
events that some destination accepted. Destinations and the node identity are
managed through a small HTTP API.

Layout:

- `src/` is the verified library. It holds the node identity
  (`config`), the data model (`models`), the decisions of every HTTP endpoint
  as step functions (`api`), delivery planning, the broker step machines and
  URL redaction (`broker`), the retry round (`retry`), command-line and
  listen-address handling (`server`) and the text routines they rely on
  (`text`).
- `app/` is the program around it: the axum server, the SQLite queries, the
  RabbitMQ and Kafka clients, logging and the OpenAPI description. Each
  handler runs the library's steps and performs the I/O each step asks for.
- `tests/` exercises the library on concrete values.
