//! A request-routing matcher: route declarations are compiled once into
//! anchored patterns, grouped by HTTP method, and matched against request paths.

pub mod engine;
pub mod error;
pub mod laws;
pub mod method;
pub mod model;
pub mod params;
pub mod path;
pub mod pattern;
pub mod route;
pub mod table;
pub mod text;
pub mod variant;
