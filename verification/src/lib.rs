//! Stage-1 init logic for a container pod: relocating an application's
//! path-shaped metadata (symlink targets, ELF interpreter and library search
//! paths, `PATH`-like environment values) under a nested rootfs, resolving the
//! entrypoint through the relocated search path, and planning the final
//! process replacement.

pub mod dispatch;
pub mod elf;
pub mod errors;
pub mod launch;
pub mod ldpath;
pub mod manifest;
pub mod paths;
pub mod pipeline;
pub mod resolve;
pub mod symlinks;
pub mod tool;
