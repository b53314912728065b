//! A dictionary lookup library: the data model of the dictionary service's
//! answers, the mapping from a decoded JSON tree onto that model, and the
//! text report that a terminal shows for a successful lookup.

pub mod client;
pub mod json;
pub mod model;
pub mod render;
pub mod schema;
pub mod style;
