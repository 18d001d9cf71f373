//! Token lifecycle and request planning for a command-line client of a remote
//! task service.
//!
//! The library holds every decision of the client: the OAuth2
//! authorization-code flow as a state machine, the persisted credential and
//! its store, the refresh before each call and the single retry after an
//! answer of 401, the three requests to the task service, and the order of
//! one run of the command line. It touches neither the disk nor the
//! network. Its caller reads the configuration and the token file, runs the
//! callback listener and talks to the provider and to the task service, and
//! reports what happened; the library answers with what is to be done next.

pub mod text;
pub mod error;
pub mod credential;
pub mod codec;
pub mod store;
pub mod config;
pub mod paths;
pub mod session;
pub mod auth;
pub mod wait;
pub mod http;
pub mod manager;
pub mod tasks;
pub mod driver;
