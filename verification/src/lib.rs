//! A minimal real-time rendering front end: swapchain lifecycle management,
//! per-frame GPU/CPU synchronization via fences, and the resize-driven
//! recreation protocol that keeps rendering resources consistent with the
//! live window surface.
//!
//! The graphics driver, the GPU queue and the OS window are outside
//! collaborators: they supply opaque handles and report outcomes
//! (acquired image index, out-of-date, unsupported extent). This crate
//! models those resources by their observable bookkeeping — image counts,
//! generation numbers, fence slots — and verifies every decision the
//! presentation pipeline makes about them.

pub mod device_manager;
pub mod extent;
pub mod presentation;
pub mod renderer;
pub mod swapchain_manager;
pub mod window;
