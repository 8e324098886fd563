//! Orchestration core of an image-flashing wizard: the page state machine,
//! the device catalog, the per-device flash tasks with their progress
//! bookkeeping, the periodic progress monitor, and the image digests.

mod checksum_wrappers;

pub mod catalog;
pub mod checksum;
pub mod content;
pub mod flash;
pub mod image;
pub mod wizard;
