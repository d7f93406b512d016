//! Classification of IRCv3 standard-reply codes.
//!
//! A standard reply carries a message type (`FAIL`, `WARN` or `NOTE`), the
//! command it concerns, and a machine-readable code token.  This crate maps
//! such a `(command, code)` pair to a strongly typed classification, with a
//! catch-all that preserves unrecognized tokens verbatim, and recognizes the
//! three standard-reply type tokens.

pub mod codes;
pub mod reply_type;
pub mod text;

pub use codes::{
    ChatHistoryCodes, ClassifiedCode, JoinCodes, MultilineCodes, NickCodes, RedactCodes,
    RegisterCodes, RenameCodes, SetNameCodes, StandardCodes, VerifyCodes,
};
pub use reply_type::StandardTypes;
