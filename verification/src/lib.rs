//! A client core for the line-oriented request/response protocol of a
//! remote media-serving daemon: encoding typed commands into wire lines,
//! decoding multi-line textual replies - including streamed, repeated-record
//! listings - into typed results, recognizing mid-session disconnection, and
//! mapping protocol-level failures to a typed error taxonomy. Every
//! decoding and encoding step is specified and machine-checked; the socket
//! itself is the caller's.

pub mod cmd;
pub mod dispatch;
pub mod duration;
pub mod error;
pub mod filter;
pub mod handlers;
pub mod mapping;
pub mod numbers;
pub mod protocol;
pub mod reply;
pub mod respmap;
pub mod splitter;
pub mod text;
pub mod timestamp;

pub use cmd::{Cmd, Command};
pub use dispatch::{CommandResponse, ReadKind};
pub use duration::{Decimal, Duration};
pub use error::Error;
pub use filter::{Filter, FilterExpr, ToFilterExpr};
pub use mapping::ListallResponse;
pub use protocol::{DatabaseVersion, Directory, Playlist, State, Stats, Status, Subsystem, Tag,
    Track};
pub use reply::{LineEvent, ReplyStep};
pub use respmap::RespMap;
pub use splitter::{ListallinfoResponse, MixedResponse};
pub use timestamp::Timestamp;
