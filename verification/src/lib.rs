//! Installs a workstation's tools from a declarative package list.
//!
//! A package is either a bare executable or an executable stored inside an
//! archive. This crate holds the rules that turn a downloaded body into the
//! file to write: which container a URL names, which archive entry is the
//! payload, where the file goes and what is reported. Network and
//! filesystem access stay with the caller, who hands in what was read and
//! carries out the plan that comes back.

pub mod archive;
pub mod fetch;
pub mod install;
pub mod package;
pub mod resolver;
pub mod text;
