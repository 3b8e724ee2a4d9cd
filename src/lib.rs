pub mod client;
pub mod heartbeat;
pub mod registry;
pub mod selector;
pub mod params;
pub mod coordinator;
pub mod encoder;
pub mod participant;
