//! A verified model of a reactive task-list synchronization protocol.
//!
//! Users view, add and delete short text tasks held in an external store.
//! The library tracks each add/delete intent from submission to settlement
//! (`dispatcher`), keeps a cached confirmed list that reloads whenever a
//! mutation settles (`resource`), and merges the confirmed list with the
//! still-pending additions into one render-ready row sequence (`composer`).
//! `session` ties the three together behind one type that a host drives:
//! the host performs the store calls and hands their outcomes back.

pub mod composer;
pub mod dispatcher;
pub mod resource;
pub mod session;
pub mod tasks;
