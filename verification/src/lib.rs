//! The control core of a host that embeds a single-threaded script engine:
//! reference accounting for engine-owned values, the registry of contexts with
//! its initialisation hooks, and the chain of module loaders that answers the
//! engine's import requests.
//!
//! Nothing in this crate touches the engine. Every function works on plain
//! values and states, in its contract, what it returns for each of them; the
//! embedding program performs the engine calls and hands their outcomes in.

pub mod eserror;
pub mod esscript;
pub mod valueref;
pub mod quickjs_utils;
pub mod quickjscontext;
pub mod quickjsruntime;
pub mod esruntime;
pub mod esruntimebuilder;
pub mod features;
pub mod eseventqueue;
