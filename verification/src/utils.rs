//! Where each persisted value lives on disk.
use vstd::prelude::*;

use crate::channels::ChannelMap;
use crate::devices::DeviceMap;
use crate::ClientConfig;

verus! {

/// A value persisted to one file in the per-user configuration
/// directory. `path` names the file relative to the user's home
/// directory; the host joins it with the home directory and does the
/// reading and writing.
pub trait FileBacked {
    fn path() -> String;
}

impl FileBacked for ClientConfig {
    fn path() -> String {
        String::from_str(".config/xtv/config")
    }
}

impl FileBacked for ChannelMap {
    fn path() -> String {
        String::from_str(".config/xtv/channels")
    }
}

impl FileBacked for DeviceMap {
    fn path() -> String {
        String::from_str(".config/xtv/devices")
    }
}

} // verus!
