//! Semantic validation of a belief/desire/intention model: identifiers,
//! entity records, per-module models, the cross-module workspace and the
//! checks that prove a model internally consistent.

pub mod action;
pub mod addressing;
pub mod agent;
pub mod assignment;
pub mod components;
pub mod concept;
pub mod covering;
pub mod cpp;
pub mod display;
pub mod emit;
pub mod enumeration;
pub mod error;
pub mod event;
pub mod field;
pub mod fresh;
pub mod goal;
pub mod identifier;
pub mod includes;
pub mod iterate;
pub mod laws;
pub mod message;
pub mod migration;
pub mod model;
pub mod order;
pub mod outputs;
pub mod plan;
pub mod project;
pub mod references;
pub mod repoint;
pub mod renaming;
pub mod renaming_report;
pub mod resource;
pub mod role;
pub mod schema;
pub mod service;
pub mod tactic;
pub mod task;
pub mod templates;
pub mod text;
pub mod usage;
pub mod validate;
pub mod workspace;
