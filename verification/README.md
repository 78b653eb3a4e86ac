# emvault_securosys

A connector for the Securosys CloudHSM, written in Verus. It hosts the two
transports that Securosys splits its functions across:

| Transport | Module | Use |
|-----------|--------|-----|
| Native PKCS#11 (Primus provider) | `pkcs11` | ECDSA multisig and SLIP-10 derivation |
| TSB REST | `tsb` | BIP-340 Schnorr for Taproot |

## Layout

- `src/` is the verified library: configuration from the environment, key
  templates, derivation requests, the bounded map of key pairs, the steps that
  read an extended public key, EC point parsing, the TSB requests and what is
  made of the replies, and the names of leaf keys. Each function states what it
  returns; the laws that span functions are public proof functions called
  `law_*`. What the library takes on trust from other crates stands in small
  wrappers, each with a comment that says what is claimed.
- `app/` is ordinary Rust around it: the process environment, the provider
  library (`dlopen` and the two vendor calls), PKCS#11 sessions, HTTP.
- `tests/` runs the library on concrete values.

## Configuration

`SECUROSYS_PKCS11_LIB` (or `PKCS11_LIB`), `SECUROSYS_SLOT_LABEL` or
`SECUROSYS_SLOT_ID`, `SECUROSYS_PKCS11_PASSWORD`, `SECUROSYS_DERIVATION_PATH`,
and optionally `SECUROSYS_ENDPOINT` and `SECUROSYS_PKCS11_PORT`; for Taproot
`SECUROSYS_TSB_URL` and `SECUROSYS_TSB_JWT`. No secret is compiled in.

The Primus provider library is loaded at run time from the configured path. It
is Securosys software under its own license and not part of this crate.
