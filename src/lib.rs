//! Orchestration core of a terminal dashboard for a container runtime:
//! the shared domain and UI snapshots, reconciliation of the container
//! listing, and the step decisions of the long-lived actors.

pub mod model;
pub mod command;
pub mod config;
pub mod reconcile;
pub mod app_data;
pub mod gui;
pub mod input;
pub mod poller;
pub mod lifecycle;
