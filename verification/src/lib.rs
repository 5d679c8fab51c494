//! Bearer-token authentication and role-based access control.

pub mod dtos;
pub mod error;
pub mod guard;
pub mod role;
pub mod text;
pub mod token;
pub mod user;
