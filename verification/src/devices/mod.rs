//! The devices module contains peripheral devices.

pub mod clint;
pub mod plic;
pub mod uart;
pub mod virtio;
pub mod virtio_blk;
pub mod virtqueue;
