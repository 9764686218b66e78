//! A gateway library that bridges a streaming backend data service to
//! incrementally written JSON arrays and translates between the REST-facing
//! shapes and the backend's protocol messages.

pub mod envs;
pub mod error;
pub mod number;
pub mod proto;
pub mod text;
pub mod time;
pub mod trading;
