//! The decisions of the local speech-to-text plugin: where models are kept,
//! which server runs a model, and what to do, step by step, to start and stop
//! servers, download models and save settings.
//!
//! By itself the library looks only at two things outside: the directory for
//! user data, which it finds from the environment, and the registry of the
//! actors in this process. All other work is the caller's. Where a request
//! needs such work, the library gives a step that names it, and goes on from
//! the result.

pub mod downloads;
pub mod error;
pub mod health;
pub mod location;
pub mod model;
pub mod plugin;
pub mod registry;
pub mod request_laws;
pub mod servers;
pub mod settings;
pub mod settings_laws;
pub mod start;
pub mod start_laws;
pub mod text;
