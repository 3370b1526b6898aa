//! Resolution of a JSON-Schema based API description into a catalog of named
//! types, and the mapping of each schema shape to the type syntax of
//! TypeScript, Python, Go and Rust.
pub mod error;
pub mod gen;
pub mod mapper;
pub mod openrpc;
pub mod resolver;
pub mod schema;
pub mod syntax;
pub mod text;
