# cs2kz

The verified core of the CS2KZ API, written in Verus.

- `src/` is the library, and Verus proves every function in it against its contract. It
  covers SteamIDs (`steam_id`, `kz_steam_id`, `steam_id2`), gameplay styles (`style`,
  `styles`), permissions, tiers and ranked statuses, problem details (`problem_details`), the
  decisions around records (`records`), the record-count queue of the points daemon
  (`record_counts`), the checks around Steam's OpenID login (`openid`) and the reading of
  `geoiplookup` output (`servers`). `text` holds the string parsing and rendering they share.
  `problem_details::content_type` returns the `mime::Mime` that the `mime` crate parses from
  `application/problem+json`; that value is named, not described. Laws that relate several functions are public proof functions named
  `law_*`.
- `app/` holds what needs traits of outside crates or floating point: serde formats of the
  library's types, HTTP problem responses, durations and record times.
- `tests/` runs the library on concrete values.
