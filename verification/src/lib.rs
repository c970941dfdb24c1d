//! Plugin provisioning core: remote identity resolution, the trust rule, and
//! the install / update / uninstall decisions of tool backends.

pub mod asdf_plugin;
pub mod backend;
pub mod cache;
pub mod error;
pub mod lifecycle;
pub mod registry;
pub mod remote;
pub mod settings;
pub mod text;
pub mod trust;
pub mod vfox;
