# arnak

A client for the [Board Game Geek XML API](https://boardgamegeek.com/wiki/page/BGG_XML_API2).

- `src/` is the library, written in Verus: the queries of every endpoint, the gathering of
  the fields of the XML replies into values, the parsing of field texts, the retry decisions
  while the API prepares data, and the mapping of the API's error replies. Each function
  states its behaviour in its contract, and the laws that relate functions are proved as
  proof functions named `law_*`.
- `app/` is the asynchronous client around it: HTTP requests with `reqwest`, waiting with
  `tokio`, and reading the XML with `serde_xml_rs`, handing each field to the library.
- `tests/` runs the library on concrete values.

Floating point ratings, sizes and dates are type parameters of the library's types; the
client uses `f64` and chrono's `DateTime<Utc>` for them. Durations are kept as minutes.
