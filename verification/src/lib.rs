//! The simulation core of a terminal role-playing game: an entity/component
//! store keyed by typed identifiers, and the pipeline that resolves queued
//! actions against it.

pub mod action;
pub mod component;
pub mod constants;
pub mod entity;
pub mod game;
pub mod gen;
pub mod item;
pub mod map;
pub mod material;
pub mod tabletop;
pub mod tag;
pub mod ui;
