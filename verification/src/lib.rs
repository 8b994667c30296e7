//! Verified core of a control panel for a local web development stack.
//!
//! The heart of the library is the registry of virtual hosts: the hosts
//! themselves ([`hosts`]), the registry and its changes ([`registry`]), the
//! codec between a host and its JSON form ([`codec`]), the registry and the
//! text of its file ([`store`]), and the guard that lets several writers
//! change the file one after another ([`guard`]). What holds of them is
//! stated and proved in [`codec_laws`], [`registry_laws`] and
//! [`guard_laws`]. JSON is read and written by `serde_json` ([`json`]).
//!
//! Around it stand the rules that the panel follows when it deals with the
//! machine: what to run and what to make of what was printed. The library
//! decides and computes; it reads no file and runs no program.

pub mod codec;
pub mod codec_laws;
pub mod commands;
pub mod config;
pub mod control;
pub mod error;
pub mod extensions;
pub mod guard;
pub mod guard_laws;
pub mod hosts;
pub mod ini;
pub mod json;
pub mod mysql;
pub mod php;
pub mod registry;
pub mod registry_laws;
pub mod services;
pub mod setup;
pub mod store;
pub mod system;
pub mod text;
pub mod tray;
pub mod versions;
