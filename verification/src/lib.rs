//! A fan-out logging adapter: one sink that broadcasts every log record to an
//! ordered collection of child sinks.
//!
//! [`MultiLogger`] presents itself as a single sink and forwards each call of
//! the sink capability — the enablement query, record emission, and flush —
//! to every child in construction order. The children are anything that
//! implements [`Sink`]; [`VecSink`] is the in-memory backend.

pub mod level;
pub mod record;
pub mod multi;
pub mod sink;
pub mod vec_sink;

pub use level::Level;
pub use level::LevelFilter;
pub use multi::MultiLogger;
pub use record::Metadata;
pub use record::Record;
pub use sink::Sink;
pub use vec_sink::VecSink;
