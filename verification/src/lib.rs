//! The logic of a desktop status bar: what each pill shows, how the bar reacts to the
//! pointer and to the window manager's messages, and which commands it sends back.

pub mod audio;
pub mod bar;
pub mod binary64;
pub mod brightness;
pub mod buttons;
pub mod clock;
pub mod command;
pub mod decimal;
pub mod drawing;
pub mod event_laws;
pub mod icons;
pub mod laws;
pub mod layout;
pub mod number_laws;
pub mod pill;
pub mod pointer;
pub mod rounding;
pub mod screenshot;
pub mod shown_laws;
pub mod size;
pub mod startup;
pub mod system;
pub mod text;
pub mod worker;
