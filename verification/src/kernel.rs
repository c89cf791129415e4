pub mod context;
pub mod event_bus;
pub mod payload;
pub mod planner;
pub mod schema;
pub mod service;
pub mod handler;
pub mod registry;
