//! Sandboxed script execution and an idempotent cache of fetched archives, for a tool
//! that builds one application for several platforms.
//!
//! The library touches neither the file system nor the network nor any process. Every
//! operation is a small machine: it hands its caller one [`effect::Request`] at a time,
//! is handed the [`effect::Response`], and says how it goes on, until it ends with a
//! result. What an operation asks for, in which order, and what it makes of each
//! response is stated in its contract and proved; the laws beside the operations say
//! what follows for whole runs.
//!
//! - [`io`]: deleting, copying, linking, writing and unpacking.
//! - [`workspace`] and [`scripts`]: running a script in a temporary directory that is
//!   removed whatever happens.
//! - [`downloads`] and [`remote_zips`]: fetching an archive once under a name.
//! - [`outputs`], [`context`], [`target`], [`variant`]: the places of one build.
//! - [`recipe`], [`manifests`] and the modules of the targets: the stages of each build.
//! - [`cache`]: a store of shared values made on first demand.
//! - [`model`]: what deleting does to a file system.

pub mod android;
pub mod archive;
pub mod cache;
pub mod context;
pub mod downloads;
pub mod effect;
pub mod emscripten;
pub mod extraction;
pub mod failure;
pub mod io;
pub mod ios;
pub mod macos_console;
pub mod macos_desktop;
pub mod macos_sdl;
pub mod manifests;
pub mod model;
pub mod outputs;
pub mod paths;
pub mod plan;
pub mod platform;
pub mod recipe;
pub mod remote_zips;
pub mod script;
pub mod scripts;
pub mod target;
pub mod text;
pub mod variant;
pub mod windows;
pub mod workspace;
