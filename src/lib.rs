//! Codec for composite values of the Ethereum contract ABI.
//!
//! A composite value is described by a schema (`ParamKind`), turned into
//! tokens (`AbiToken`) field by field, and handed to the primitive ABI encoder
//! of `ethabi`; decoding checks the minimum length implied by the schema
//! before asking the primitive decoder for tokens.
pub mod codec;
pub mod derive;
pub mod error;
pub mod param;
mod eth_types;
mod primitive;
pub mod token;
pub mod tokenize;
