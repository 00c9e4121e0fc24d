//! A monitor of hosts and applications: what it measures and logs, the rules that raise alerts,
//! the channels on which alerts are told, and the management of all of these records.
//!
//! The library decides and states: which statements a request runs on the database, how it is
//! answered, when an alert is triggered or resolved, and in which steps a notification is
//! delivered. Whoever uses it runs the statements, makes the network calls and hands the
//! outcomes back.
pub mod address;
pub mod alert;
pub mod channel;
pub mod clock;
pub mod defaults;
pub mod delivery;
pub mod endpoint;
pub mod fields;
pub mod json;
pub mod management;
pub mod percent;
pub mod record;
pub mod resource;
pub mod routes;
pub mod schema;
pub mod sql;
pub mod stream;
pub mod text;
pub mod validation;
