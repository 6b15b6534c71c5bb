//! Verified core of the OpenFMB HMI server: configuration, connection
//! settings, control planning and the bookkeeping that the actors do.

pub mod text;
pub mod settings;
pub mod connection;
pub mod coordinator;
pub mod pubsub;
pub mod configuration;
pub mod control_type;
pub mod csg;
pub mod error;
pub mod equipment;
pub mod control;
pub mod routing;
pub mod registry;
pub mod ui_keys;
pub mod ordered;
pub mod flatten;
pub mod updates;
pub mod export;
pub mod dispatch;
pub mod auth;
pub mod messages;
pub mod logging;
pub mod timestamp;
