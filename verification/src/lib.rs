//! An engine that runs plans of image-processing steps on a graphics device.
//!
//! A plan is an ordered list of steps: compute shaders, functions on the CPU,
//! and groups of plans that start from the same images. The engine walks a
//! plan, keeps images on the device between compute steps, brings them into
//! CPU memory where a function needs them, and turns the one image that is
//! left into packed 8-bit RGBA bytes.
//!
//! Images between steps are RGBA with 32-bit float channels. On the CPU side a
//! channel is carried as the bit pattern of its float, so that everything the
//! engine itself computes on pixels is integer arithmetic.
//!
//! The modules:
//! - `image_generate_builder`: plans and their steps.
//! - `compiled_wgsl`, `compiled_func`: what the steps run.
//! - `image_generator`: the engine, its caches and its executor, with one
//!   module for each kind of step, one for the final conversion, and one
//!   for the cache keys that a plan uses.
//! - `lru_cache`: the bounded caches; `lru_laws`: what holds of them.
//! - `layout`: dispatch sizes, binding indices, layouts and row pitches.
//! - `quantize`: the conversion of float channels to bytes.
//! - `plan_laws`: what holds of the images that plans leave.
//! - `descriptors`: plain descriptions of device objects.
//! - `device`: the boundary to the graphics device; nothing behind it is
//!   proved.
//! - `error`: the errors of the engine.
//! - `app_config`, `shared_texture`: values of the host application around
//!   the engine.

pub mod app_config;
pub mod compiled_func;
pub mod compiled_wgsl;
pub mod descriptors;
pub mod device;
pub mod error;
pub mod image_generate_builder;
pub mod image_generator;
pub mod layout;
pub mod lru_cache;
pub mod lru_laws;
pub mod plan_laws;
pub mod quantize;
pub mod shared_texture;
