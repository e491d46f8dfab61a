//! A consistency layer between drawing operations and a versioned,
//! extension-fragmented graphics driver.
//!
//! The layer keeps a cache of the driver state it touches, decides which
//! driver calls an operation really needs, and picks the entry points that
//! the detected API version offers. It never talks to the driver itself: an
//! operation returns the calls to make, in order, and records in the cache
//! what the driver state will be once they have been made.

pub mod context;
pub mod dialect;
pub mod driver;
pub mod fbo;
pub mod gl;
pub mod ops;
pub mod rect;
pub mod state;
pub mod version;

pub use rect::{BlitTarget, Rect};
