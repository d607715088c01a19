//! Vehicle data: topics, the publisher's request conversions and publisher
//! routing, and the playback of scripted vehicle data.

pub mod topics;
pub mod model;
pub mod publishers;
pub mod playback;
pub mod laws;
