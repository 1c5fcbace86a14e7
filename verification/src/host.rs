//! Host block-device inventory types, as reported by a node of the data
//! plane: partitions, filesystems and the devices that carry them.

use vstd::prelude::*;

verus! {

/// Partition information of a block device.
#[derive(Debug, PartialEq, Eq)]
pub struct Partition {
    /// Device the partition sits on.
    pub parent: String,
    /// Partition number.
    pub number: u32,
    /// Partition name.
    pub name: String,
    /// Partition scheme (gpt, dos, ...).
    pub scheme: String,
    /// Partition type identifier.
    pub typeid: String,
    /// Partition uuid.
    pub uuid: String,
}

impl Default for Partition {
    /// The placeholder used when a device reports no partition: every field
    /// empty.
    fn default() -> (r: Partition)
        ensures
            r.parent@.len() == 0,
            r.number == 0u32,
            r.name@.len() == 0,
            r.scheme@.len() == 0,
            r.typeid@.len() == 0,
            r.uuid@.len() == 0,
    {
        Partition {
            parent: String::new(),
            number: 0,
            name: String::new(),
            scheme: String::new(),
            typeid: String::new(),
            uuid: String::new(),
        }
    }
}

/// Filesystem information of a block device.
#[derive(Debug, PartialEq, Eq)]
pub struct Filesystem {
    /// Filesystem type.
    pub fstype: String,
    /// Filesystem label.
    pub label: String,
    /// Filesystem uuid.
    pub uuid: String,
    /// Path the filesystem is mounted under, empty when unmounted.
    pub mountpoint: String,
}

impl Default for Filesystem {
    /// The placeholder used when a device reports no filesystem: every field
    /// empty.
    fn default() -> (r: Filesystem)
        ensures
            r.fstype@.len() == 0,
            r.label@.len() == 0,
            r.uuid@.len() == 0,
            r.mountpoint@.len() == 0,
    {
        Filesystem {
            fstype: String::new(),
            label: String::new(),
            uuid: String::new(),
            mountpoint: String::new(),
        }
    }
}

/// A block device of a node.
#[derive(Debug, PartialEq, Eq)]
pub struct BlockDevice {
    /// Device name.
    pub devname: String,
    /// Device type.
    pub devtype: String,
    /// Major device number.
    pub devmajor: u32,
    /// Minor device number.
    pub devminor: u32,
    /// Device model.
    pub model: String,
    /// Device path.
    pub devpath: String,
    /// Symbolic links to the device.
    pub devlinks: Vec<String>,
    /// Size in bytes.
    pub size: u64,
    /// Partition information, a default-valued placeholder when none.
    pub partition: Partition,
    /// Filesystem information, a default-valued placeholder when none.
    pub filesystem: Filesystem,
    /// Whether the device is available for use.
    pub available: bool,
}

} // verus!
