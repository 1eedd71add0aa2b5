//! A small helper library for inspecting workflow runs of a hosted
//! repository: a configuration loader that admits exactly one
//! authentication mode, and a facade that builds first-page list
//! requests and maps the fetched page items into local record types.

pub mod config;
pub mod facade;
