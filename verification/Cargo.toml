[package]
name = "token_ledger"
version = "0.1.0"
edition = "2021"
publish = false

[dependencies]
# The tables of the ledgers, and the host's errors and calls.
ink_storage = "=3.0.0-rc5"
ink_env = "=3.0.0-rc5"
ink_lang = "=3.0.0-rc5"
ink_prelude = "=3.0.0-rc5"
# Not used by name: the crates of ink! on which the ones above build. Each
# asks for the others by a requirement that later, incompatible releases
# meet too, so all of them are held to the one release.
ink_primitives = "=3.0.0-rc5"
ink_metadata = "=3.0.0-rc5"
ink_storage_derive = "=3.0.0-rc5"
ink_allocator = "=3.0.0-rc5"
ink_lang_macro = "=3.0.0-rc5"
ink_lang_codegen = "=3.0.0-rc5"
ink_lang_ir = "=3.0.0-rc5"
# The codec of what crosses the contract boundary, and the names of errors.
parity-scale-codec = { version = "=2.3.1", features = ["derive"] }
scale-info = { version = "=1.0.0", features = ["derive"] }
strum_macros = "=0.28.0"
