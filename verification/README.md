# pulse_commerce

The verified core of a small e-commerce backend: an API gateway, an order service, a
payment service, a notification service and a broker benchmark that talk through a
RabbitMQ topic exchange.

- `src/` is the library, verified with Verus: settings from the environment, request
  checks, password checks and issuing and checking bearer tokens (`gateway`, through
  `jsonwebtoken`), order, shipment and payment rules
  (`orders`, `payments`), notification texts and channels (`notifications`), the
  WebSocket client registry (`hub`), broker decisions (`broker`), the benchmark's
  messages, statistics and report (`benchmark`), and the text and number handling they
  rest on (`text`, `number`, `slug`). Each public function states its result in its
  contract; the laws of the library are public proof functions.
- `tests/` runs the library on concrete values.
- `app/` is the program around it: one binary that runs any of the services
  (`app <service-name>`), with the HTTP servers, database queries, broker connections,
  JSON and Protobuf encodings and outside calls.
