//! Swarm simulation over preprocessed map masks: procedural placement of
//! crawlers, map thresholding, GPU parameter packing and the application
//! state machine that sequences them.
pub mod canvas;
pub mod crawler;
pub mod swarm;
pub mod gpu;
pub mod maps;
pub mod state;
pub mod sim;
