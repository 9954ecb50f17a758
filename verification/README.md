# prost_validate_rules

Validation of protocol buffer values against the constraint rules of the
`validate.proto` annotations (protoc-gen-validate), written in Verus.

- `src/` is the verified library. Each rule set (numbers, strings, bytes,
  bools, enums, `Any`, durations, timestamps, repeated fields, maps,
  messages and oneofs) has a validator whose contract states exactly which
  values pass and which error is reported for the others. The string
  formats (email, hostname, IP addresses, URIs, UUIDs, HTTP headers) are
  specified and checked in `src/formats.rs`. `src/field.rs` checks that the
  rules written on a field fit its type, and `src/builder.rs` plans the
  attributes the code generator adds. `src/laws.rs` states properties of
  the rules as a whole.
- `app/` reads messages and their options through `prost-reflect`, renders
  errors, checks floating-point rules, and configures `prost-build`.
- `tests/` exercises the library on concrete values.
