pub mod executor;
pub mod nya_base;
pub mod nya_core;
pub mod nya_service;
pub mod ansible;
