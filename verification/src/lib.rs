//! Uniform, callable capabilities for model-driven agents: the structured
//! documents that cross the capability boundary, the size-bounding document
//! sanitizer, and the pure decisions behind the agent and retrieval
//! capabilities.

pub mod agent;
pub mod document;
pub mod sanitize;
pub mod tool;
pub mod vector_store;
