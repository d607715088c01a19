//! The user preferences service: settings registered by services, users
//! with their own copies of the settings, and subscribers to changes.

pub mod setting;
pub mod settings_group;
pub mod settings_group_id;
pub mod vehicle_configuration;
pub mod errors;
pub mod service;
pub mod laws;
