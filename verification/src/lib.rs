//! A pan-and-zoom viewport over one fixed RGBA raster.
//!
//! - `bitmap`: the source raster, held in an `image` buffer.
//! - `compositor`: nearest-neighbour resampling of the raster into a
//!   window-sized byte buffer, and the sizing of that buffer.
//! - `interaction`: the drag state machine and the effect that each pointer,
//!   wheel, key and window event asks for.
//! - `session`: the owner of pointer state, window size and frame buffer.
//!
//! The library holds no floating-point numbers. Positions and scroll amounts
//! pass through it as values of a type parameter, and the viewport transform
//! reaches the compositor as one integer sample map per axis.

pub mod bitmap;
pub mod compositor;
pub mod interaction;
pub mod session;
