//! Generator of the root-task program for an seL4-based system.
//!
//! Given a target architecture, the name of the module that holds the task's
//! logic, the kernel's configuration constants and the start-up code of each
//! architecture, the library writes the text of a freestanding program that
//! creates one thread, points it at the task's entry and idles.
pub mod arch;
pub mod text;
pub mod program;
pub mod generator;
pub mod layout;
pub mod laws;
