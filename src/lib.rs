//! A provider plugin protocol and the synchronisation engine around it: lists
//! and tasks from several task services, normalised into one canonical model,
//! cached per service, and refreshed by streaming or polling loads.

pub mod service;
pub mod list;
pub mod task;
pub mod provider;
pub mod smart;
pub mod sidebar;
pub mod rows;
pub mod window;
