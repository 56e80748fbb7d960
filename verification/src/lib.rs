//! Decision logic for migrating a btrfs root layout through its schema
//! epochs. The library never touches the disk: every filesystem operation is
//! handed out as an [`action::Action`], and the caller reports back what
//! happened as an [`action::Outcome`].

pub mod action;
pub mod context;
pub mod error;
pub mod finder;
pub mod home;
pub mod laws;
pub mod replay;
pub mod rootfs_v2;
pub mod rootfs_v3;
pub mod run;
pub mod subvolume;
