# stocks_api

Verified core of a stock-management HTTP API (products, stocks, suppliers).

- `src/` is the library, checked by Verus:
  - `products.rs`: the product endpoints as step functions. Each write
    endpoint is a flow that asks the database questions (`ProductQuery`) and,
    from each answer (`Answer`), decides the next question or the reply.
  - `product_laws.rs`: properties of every run of those flows.
  - `responses.rs`: statuses, error codes and reply bodies.
  - `suppliers.rs`: supplier payloads and their field checks.
  - `stocks.rs`: stock payloads.
  - `text.rs`: decimal rendering and substring search used in messages.
- `app/` is the server: configuration, routes, SQL, JSON and the loops that
  answer each flow's questions.
- `tests/` runs the library on concrete values.
