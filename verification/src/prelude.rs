//! Simplify importing
//!
//! ```
//! use evdi::prelude::*;
//! ```
pub use crate::buffer::{Buffer, BufferId};
pub use crate::device_config::DeviceConfig;
pub use crate::device_node::DeviceNode;
pub use crate::handle::{Handle, UnconnectedHandle};
pub use crate::mode::{DrmFormat, Mode};
pub use crate::{check_kernel_mod, KernelModStatus};
