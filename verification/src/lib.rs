//! Settings for an external network intrusion-detection tool, together with
//! the rendering of those settings into the tool's configuration file text.
//!
//! The library holds the configuration data model ([`config::Config`]), its
//! default values, the comma-joined serialization of the internal network
//! ranges ([`config::InternalIps`]), and the substitution of the model's
//! fields into a fixed configuration document. Reading the environment and
//! writing the rendered text to disk are left to the surrounding program:
//! the library only computes, and every function here is verified.

pub mod config;
pub mod render;
pub mod text;
