//! Screen reading helpers: region specifications, window lists, the text
//! collected from the screen, capture scripts and change watching.
pub mod region;
pub mod windows;
pub mod read;
pub mod capture;
pub mod watch;
