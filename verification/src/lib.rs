//! Decision logic of the desktop application for KC901 network analyzers.
//!
//! Rendering, threads, files and the instrument link live outside this crate.
//! They hand in plain values and carry out what the functions here decide.

pub mod acquisition;
pub mod analysis_tools;
pub mod app;
pub mod calibration_control;
pub mod calibration_panel;
pub mod charts;
pub mod config;
pub mod connection_editor;
pub mod desktop;
pub mod device_lookup;
pub mod device_worker;
pub mod messages;
pub mod model;
pub mod state;
pub mod text;
pub mod trace_panels;
pub mod worker_loop;
pub mod worker_steps;
pub mod workspace;
