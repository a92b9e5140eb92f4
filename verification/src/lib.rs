//! Presentation layer of a GPU renderer, as a verified state machine.
//!
//! The library keeps the books of a chain of presentable images: one render
//! target per image, the recording that each target currently holds, the
//! completion token of the last submission, and the cursor of the per-frame
//! cycle. Device objects appear as opaque `u64` handles; the caller performs
//! the device work that an action names and reports what the device answered.

pub mod device;
pub mod error;
pub mod fence;
pub mod render;
pub mod surface;
pub mod swapchain;
