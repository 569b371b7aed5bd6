//! A pre-kernel stage loader library: it classifies the firmware memory
//! map, places the loadable segments of a kernel image, resolves
//! position-independent relocations, describes the framebuffer, and
//! assembles the handoff structure that the kernel reads after control
//! is transferred.

pub mod error;
pub mod graphics;
pub mod handoff;
pub mod image;
pub mod orchestrator;
pub mod memmap;
pub mod region;
pub mod reloc;
pub mod segment;
