//! Delay-block (DLYB) control for the SDMMC controllers, and aligned slice
//! views of aligned buffers.
pub mod aligned_slice;
pub mod dlyb;
pub mod instance;

pub use aligned_slice::{AsAlignedSlice, AsMutAlignedSlice};
pub use dlyb::{CfgUpdate, CfgWrite, Dlyb, DlybCfg, DlybRegs, DlybStatus, Error, PollStep, StatusFlag, StatusPoll, POLL_LIMIT};
pub use instance::{DlybInstance, Instance};
