//! What holds of the viewer as a whole: how the outcome of a message relates
//! to the state it met and to the outcomes of other messages.

pub mod animation;
pub mod arrival;
pub mod controls;
pub mod decaying;
pub mod filing;
pub mod input;
pub mod landing;
pub mod loading;
pub mod neighborhood;
pub mod opening;
pub mod program;
pub mod releasing;
pub mod requests;
pub mod restoring;
pub mod settings;
pub mod stepping;
pub mod tiling;
pub mod values;
pub mod video;
pub mod windows;
