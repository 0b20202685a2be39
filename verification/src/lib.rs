//! The build-specification engine of a package manager for Lua packages:
//! loading and merging rockspecs, substituting variables in commands, and
//! running builds that are made of commands.

pub mod command;
pub mod error;
pub mod exec;
pub mod interpreter;
pub mod lua_rockspec;
pub mod outcome;
pub mod outdated;
pub mod partial;
pub mod rockspec;
pub mod shape;
pub mod text;
pub mod value;
pub mod variables;
