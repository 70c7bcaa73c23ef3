//! A safety layer for a transaction-processing client library.
//!
//! The native library keeps sessions and buffers behind plain addresses, and
//! leaves it to its caller to initialize before use, to release once, and to
//! grow a structured buffer that has become too small. This crate holds the
//! rules of that use: the life of a session, the ownership of buffers by
//! sessions, the way values are handed to the native layer, and the protocol
//! that grows a buffer and writes again.
//!
//! The crate itself never calls the native layer. Each operation has one
//! function that decides which native call is due, and one, named with
//! `_reply`, that takes what the native layer answered and decides what
//! follows from it. Whoever embeds the crate makes the calls in between.

pub mod atmictx;
pub mod atmictx_log;
pub mod errors;
pub mod field_change;
pub mod growth;
pub mod native;
pub mod text;
pub mod tpsvcinfo;
pub mod typed_buf;
pub mod typed_ubf;

pub use atmictx::{Affinity, AtmiCtx, SessionState, SessionView};
pub use atmictx_log::{LogCall, LogLevel, Logger};
pub use errors::{AtmiError, AtmiResult, ErrorView, NstdError, NstdResult, UbfError, UbfResult};
pub use field_change::{FieldChange, Outcome, Phase, Progress, UbfCall, UbfReply};
pub use native::{AllocCall, ChangeCall, FreeCall, ReallocCall, SessionCall, SizeofCall};
pub use tpsvcinfo::{ClientId, SvcInfoRecord, TpSvcInfo};
pub use typed_buf::{BufferView, HandleEvent, TypedBuffer};
pub use typed_ubf::{FieldArg, Source, TypedUbf, UbfValue};
