# kremlin

The rules of the Kremlin marketplace back end, each with a contract and a
proof that it keeps it: access to tenants' data, page requests and their
sort columns, what each resource accepts and how it builds its records
(catalogue, customers, carts, promotions, taxes, shipping, stock), catalogue
and place imports, the card-payment flow with its provider (charge attempts,
answers, notifications and their signatures), sign-up and profile updates,
the conversions between records and their JSON forms, and the text handling
they rest on.

- `src/` is the verified library (`text`, `domain`, `commons`,
  `authentication`, `endpoints`, `infrastructure`).
- `tests/` exercises it on concrete values.
- `app/` is the server around it: configuration, HTTP, the provider's API,
  files and the message catalogue.
