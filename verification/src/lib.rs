//! The decision core of a multi-window image and video viewer.
//!
//! Everything here is a state machine over plain values: windows, the viewer
//! open in each of them, the shared image store, and the messages that drive
//! them. Handlers mutate that state and append the [`actions::Action`]s the
//! surrounding program has to perform (decode, upload, arm a timer, scroll a
//! widget). Pixels, textures, floating-point geometry, and I/O stay outside.

pub mod actions;
pub mod anim;
pub mod app;
pub mod boot;
pub mod budget;
pub mod components;
pub mod config;
pub mod decay;
pub mod dispatch;
pub mod file_ops;
pub mod files;
pub mod invariants;
pub mod jobs;
pub mod laws;
pub mod leases;
pub mod media;
pub mod media_tasks;
pub mod message;
pub mod nav;
pub mod navigation;
pub mod open;
pub mod panels;
pub mod paths;
pub mod rotate;
pub mod shortcuts;
pub mod state;
pub mod store;
pub mod subscription;
pub mod text;
pub mod thumbs;
pub mod tiles;
pub mod time;
pub mod video_flow;
pub mod view;
pub mod whole;
pub mod window;
pub mod window_events;
pub mod working_set;
