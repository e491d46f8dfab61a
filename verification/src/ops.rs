//! The operations that the layer dispatches to the driver.

pub mod blit;
pub mod blit_laws;
