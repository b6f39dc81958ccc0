//! Typed decoding of the data replies of the Hyprland control socket.
//!
//! A reply arrives as a generic tree ([`value::Value`]). Each decoder turns such
//! a tree into one validated entity, or reports the first place at which the
//! tree does not have the entity's shape. Every decoder is a total function of
//! its arguments, and its contract equates the result, by its deep view, with a
//! spec function over the view of the tree.

pub mod error;
pub mod value;
pub mod read;
pub mod workspace;
pub mod monitor;
pub mod client;
pub mod mapping;
pub mod layer;
pub mod device;
pub mod version;
pub mod keyword;
pub mod command;
