//! Decision logic of Breeze, the Windows Hello auto-confirmation service:
//! paths and settings, command-line handling, the helper supervisor's restart
//! policy, the service event loop and the credential-dialog rules.
mod text;

pub mod clock;

pub mod constants;
pub mod config;
pub mod elevation;
pub mod cmdline;
pub mod supervisor;
pub mod session;
pub mod service_loop;
pub mod cli;
pub mod dialog;
pub mod handlers;
pub mod error;
