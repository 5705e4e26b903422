//! Client-side logic of Plantbuddy, a desktop application for managing plants:
//! the state machines of its tabs, the data it exchanges with the plant server,
//! and the text handling around them.

pub mod application;
pub mod buttons;
pub mod clock;
pub mod color;
pub mod detail;
pub mod graphs;
pub mod home;
pub mod icons;
pub mod login;
pub mod logout;
pub mod management;
pub mod requests;
pub mod role;
pub mod sensors;
pub mod settings;
pub mod text;
