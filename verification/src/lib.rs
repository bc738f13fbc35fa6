//! Hold-to-talk session coordination: the decisions behind a press-and-hold
//! voice capture key, kept free of any I/O so that every rule can be proved.

pub mod clock;
pub mod command;
pub mod debounce;
pub mod dock;
pub mod finish;
pub mod focus;
pub mod hold;
pub mod laws;
pub mod router;
pub mod start;
