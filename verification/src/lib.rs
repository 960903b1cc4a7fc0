//! A codec for local timestamps: formats a local date-time as the fixed
//! pattern `YYYY-MM-DD hh:mm:ss` and parses that same pattern back,
//! attaching the host's current local UTC offset to the decoded value.

mod clock;
pub mod codec;
pub mod laws;
pub mod timestamp;

pub use codec::decode;
pub use codec::decode_at;
pub use codec::encode;
pub use codec::MalformedTimestamp;
pub use timestamp::LocalTimestamp;
