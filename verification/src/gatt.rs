//! The immutable attribute model: services, characteristics, descriptors,
//! their properties, and the events the peripheral reports to the
//! application.

pub mod characteristic;
pub mod descriptor;
pub mod peripheral_event;
pub mod properties;
pub mod service;
