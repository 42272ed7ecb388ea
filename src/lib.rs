//! Deployment driver for declaratively specified workflows: environment
//! configuration resolution, parameter binding, artifact layout and the
//! phased deploy sequence, each stated as verified logic over plain values.
//! The surrounding program performs the filesystem, process and network work
//! that these functions ask for.

pub mod status;
pub mod timestamp;
pub mod layout;
pub mod params;
pub mod resolver;
pub mod cache_model;
pub mod pipeline;
pub mod summary;
