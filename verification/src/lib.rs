//! Finding an installed multimedia codec suite and planning the generation of
//! its bindings.
//!
//! The library reads no variable and touches no file. It is driven: each of
//! its conversations ([`pipeline::build`] is the whole of them) takes the
//! state it stands in and the reply to its last query, and gives the next
//! query or the end. Whoever drives it carries out the queries. What each
//! conversation comes to in given surroundings is stated over [`host::World`]
//! and proved.

pub mod bindings;
pub mod env_install;
pub mod error;
pub mod host;
pub mod link;
pub mod path;
pub mod pipeline;
pub mod resolve;
pub mod suite;
pub mod text;
