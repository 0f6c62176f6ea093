//! Idiomatic bindings around the DataStax C/C++ driver for Apache Cassandra.
//!
//! The library holds the parts of the binding that carry real logic: the
//! bridge that turns the driver's single-shot completion object into a
//! cooperatively polled task, the allocator shim that smuggles a block's size
//! into the block itself, and the tables that map the driver's numeric codes
//! to typed values and back.

pub mod allocator;
pub mod consistency;
pub mod convert;
pub mod details;
pub mod driver;
pub mod error;
pub mod future;
pub mod host;
pub mod inet;
pub mod kind;
pub mod logging;
pub mod protocol;
pub mod session;
pub mod settings;
pub mod ssl_verify_flags;
pub mod text;
pub mod uuid;
pub mod version;
pub mod write_type;

pub use consistency::Consistency;
pub use convert::{MaybeFrom, MaybeInto};
pub use details::{DriverErrorDetails, ErrorResultRecord, FunctionErrorDetails};
pub use error::DriverError;
pub use future::{CompletionState, DriverFuture, NativeCompletion, PollStep};
pub use host::{ContactPoint, ContactPointParseError, Domain, Host, HostParseError};
pub use inet::CqlInet;
pub use kind::DriverErrorKind;
pub use logging::{LogLevel, LogMessage};
pub use protocol::ProtocolVersion;
pub use session::Session;
pub use ssl_verify_flags::SslVerifyFlags;
pub use uuid::{CqlUuid, CqlUuidVersion};
pub use version::{ClusterVersion, DriverVersion};
pub use write_type::WriteType;
