//! Suggests actionable issues for a project's dependencies: resolves each
//! dependency's source repository on the supported forge and pairs it with
//! the open issues reported by the issue tracker.

pub mod decimal;
pub mod model;
pub mod producer;
pub mod resolver;
