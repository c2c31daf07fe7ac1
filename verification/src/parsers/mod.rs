//! The document formats that come with the library.

pub mod yaml;
pub mod yaml_laws;
pub mod yaml_model;
