//! Project configuration, entrypoint conversion, module-graph transitions and
//! the push-from-pull subscription protocol of an incremental bundler.
pub mod options;
pub mod routes;
pub mod entrypoints;
pub mod project;
pub mod transition;
pub mod subscription;
