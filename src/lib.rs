//! Monitoring of a binary input line: configuration, edge detection, the
//! records sent for each detected edge, and the lifecycle of the port actor
//! that starts the detection.

pub mod actor;
pub mod config;
pub mod detector;
pub mod event;

pub use actor::{Action, Message, PortActor, SourceKind, source_for};
pub use config::{Config, ConfigEntry, ConfigError, ConfigValue, Configuration, parse_config};
pub use detector::{EdgeDetector, Level, Transition, detect_all, simulated_level};
pub use event::{DeliveryMode, OutgoingEvent, make_event, new_event, event_type_of};
