# zcode_pet

The verified core of a desktop-pet companion for the ZCode coding assistant:
a pet that lives in a transparent window, installed from the codex-pets.net
marketplace or imported from a local image, plus a summary of the day's
ZCode token usage.

`src/` is a Verus library. Its functions carry contracts that Verus proves,
except a few trusted wrappers around std, chrono and reqwest calls
(`str::trim`, `String::push`, `Path::join`, `Path::file_stem`, the system
clock, RFC 3339 parsing, URL building), marked `#[verifier::external_body]`;
their contracts state what those libraries document and are believed
without proof.

- `text`: pet ids, URL path segments, trimming (`White_Space`), code-point
  order, decimal and hexadecimal formatting.
- `paths`: joining and splitting paths held as text (`std::path`).
- `pet`: the records (marketplace summary, bundle descriptor, stored
  metadata, front-end view) and `meta_to_info`.
- `catalog`: the shipped pets, the stable listing order, delete protection,
  cache directories.
- `image`: PNG / WebP recognition and ids for imported pets.
- `install`: the metadata written when a pet is downloaded, imported or found
  as a bare bundle, and the checks that stop an installation (dates through
  chrono).
- `market`: marketplace URLs, search parameters and request URL, proxy selection, the
  result of a connection test.
- `zcode`: where the ZCode database is looked for, today's usage summary,
  the Node.js check.
- `window`: choosing the monitor the pet window moves to.

`app/` holds the Tauri commands that do the network, file, window, database
and clock work around the library, with serde forms of its records.
`tests/` exercises the library on concrete values.
