//! A command-line HTTP request tool's core: URL validation, method and
//! body resolution, wire preparation, and classification of every request
//! outcome into a closed, fixed-message error taxonomy. The CLI surface
//! and the network transport live outside this crate; they exchange plain
//! values with it.

pub mod errors;
pub mod validator;
pub mod dispatch;
