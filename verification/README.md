# canteen_api

The request logic of a small web service that answers questions about
canteens and users: reading typed request parameters, turning the rows of
database queries into answers or error answers, issuing login tokens, and
checking the server's environment settings.

- `src/` is the verified library (Verus). `text` reads and writes decimal
  integers; `params` holds a request's named parameters and the types they
  can be read as; `util` and `v1::api::util` read parameters by name and
  type; `v1::model` decides what the query rows of users and canteens
  answer; `startup` checks the environment settings.
- `app/` is the server around it: rustless routes, the PostgreSQL pool,
  the queries themselves, JSON encoding, and the floating point
  coordinates of canteens.
- `tests/` exercises the library on concrete values.
