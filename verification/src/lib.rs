//! A tracing-session toolkit: session lifecycle state machines, a bounded
//! lossy event pipeline with observable statistics, composable event
//! filters, provider configuration, a normalized event model with a JSON
//! rendering, and trace-file replay.
//!
//! The native tracing backend (provider enumeration, schema resolution,
//! raw-record decoding) is an outside collaborator: the session types
//! decide every transition and hand back plans naming exactly what a
//! caller must ask the backend to do.

pub mod clock;
pub mod discovery;
pub mod error;
pub mod etl_reader;
pub mod event;
pub mod guid;
pub mod filter;
pub mod json;
pub mod kernel;
pub mod known_providers;
pub mod pipeline;
pub mod provider;
pub mod schema;
pub mod session;
pub mod stats;
pub mod text;

pub use discovery::{ProviderDetails, ProviderInfo};
pub use error::{EtwError, EtwResult};
pub use etl_reader::EtlReader;
pub use event::EtwEvent;
pub use filter::EventFilter;
pub use kernel::{KernelEventCategory, KernelSession, KernelSessionConfig};
pub use provider::EtwProvider;
pub use session::{EtwSession, SessionConfig, TraceMode};
pub use stats::SessionStats;
