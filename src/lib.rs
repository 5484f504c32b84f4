//! Turns a script project into a standalone program: the manifest and lockfile
//! models, dependency resolution, the precompilation steps that cache a
//! verified bytecode unit, and the text of the host project that embeds it.

pub mod compile;
pub mod faux_crate;
pub mod lockfile;
pub mod manifest;
pub mod resolve;
pub mod text;
