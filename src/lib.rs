//! Persistence layer for users and follow relations: entities, positional row
//! decoding, entity-to-transport conversion, repository contracts, and
//! in-memory test doubles with their fixtures.

pub mod entity;
pub mod row;
pub mod users;
pub mod mock_users;
pub mod profiles;
pub mod services;
pub mod fixtures;
