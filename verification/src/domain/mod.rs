//! Domain layer: entities, value objects, services and repository contract.

pub mod entities;
pub mod repositories;
pub mod services;
pub mod value_objects;
