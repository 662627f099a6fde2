# media_api

A media upload service: it accepts audio files and images over
`multipart/form-data`, checks each file by its extension and its leading
bytes, stores it in S3-compatible storage and announces every step on the
Kafka topics `media` and `media.upload`.

- `src/` is the verified library:
  - `validation` — extensions, header (magic-byte) detection, the
    extension/format agreement, content types;
  - `upload` — route settings, identifier checks, the chunk-by-chunk intake
    of a file, the reading of the multipart form, and the outcome of an
    upload once the storage has answered;
  - `kafka` — the events and their pairing on the two topics;
  - `s3` — storage settings, object locators and the bucket-check decisions;
  - `auth` — the claims of a token and the `Authorization` header check;
  - `uuid_format` — the accepted textual forms of UUIDs and their canonical
    form;
  - `text` — character-level helpers.
- `app/` is the HTTP server around it: axum routes, the Kafka producer, the
  S3 client, JWT decoding, and the serializable forms of the library's types.
- `tests/` runs the library on concrete values.
