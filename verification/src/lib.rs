//! The frame-rendering orchestration core of a small windowed GPU program.
//!
//! The crate decides; its host performs. Every function here maps plain
//! values to plain values: the host reports what the window system and
//! the graphics backend did, and gets back the calls to make next, in
//! order, and the command buffer to submit.
//!
//! Leaf first: [`capability`] holds the feature flags of a device,
//! [`context`] decides whether a device may be had, [`surface`] keeps
//! the configuration of the presentable surface, [`pipeline`] builds
//! the two variants of pipeline, [`binder`] keeps buffers, textures and
//! bind sets, [`compositor`] shows the depth target as an overlay,
//! [`motion`] moves the foreground quad, and [`driver`] is the frame
//! loop that ties them together. [`backend`] and [`scene`] are the
//! vocabulary between the loop and its host. [`model`] says in
//! mathematics what the loop does, and [`recording`] and [`theorems`]
//! prove what holds of it in every state.

pub mod backend;
pub mod binder;
pub mod capability;
pub mod compositor;
pub mod context;
pub mod driver;
pub mod model;
pub mod motion;
pub mod pipeline;
pub mod recording;
pub mod scene;
mod setup;
pub mod surface;
pub mod theorems;
