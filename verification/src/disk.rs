//! Storage volumes.

use vstd::prelude::*;

verus! {

/// The kind of device behind a volume.
#[derive(Clone, Copy, Debug, PartialEq, Eq, Structural)]
pub enum DiskKind {
    /// A rotating hard disk.
    HDD,
    /// A solid-state drive.
    SSD,
    /// A removable medium.
    Removable,
    /// Any other kind, with the code the operating system gave for it.
    Unknown(isize),
}

/// One storage volume as the operating system listed it.
#[derive(Debug, PartialEq, Eq)]
pub struct DiskInfo {
    pub name: String,
    pub mount_point: String,
    pub kind: DiskKind,
}

/// The mathematical model of a [`DiskInfo`].
pub struct DiskInfoView {
    pub name: Seq<char>,
    pub mount_point: Seq<char>,
    pub kind: DiskKind,
}

impl View for DiskInfo {
    type V = DiskInfoView;

    open spec fn view(&self) -> DiskInfoView {
        DiskInfoView { name: self.name@, mount_point: self.mount_point@, kind: self.kind }
    }
}

impl DeepView for DiskInfo {
    type V = DiskInfoView;

    open spec fn deep_view(&self) -> DiskInfoView {
        self@
    }
}

impl Clone for DiskInfo {
    fn clone(&self) -> (copy: DiskInfo)
        ensures
            copy@ == self@,
    {
        DiskInfo {
            name: self.name.clone(),
            mount_point: self.mount_point.clone(),
            kind: self.kind,
        }
    }
}

impl DiskInfo {
    /// The volume `name`, mounted at `mount_point`, on a device of `kind`.
    pub fn new(name: String, mount_point: String, kind: DiskKind) -> (disk: DiskInfo)
        ensures
            disk@ == (DiskInfoView { name: name@, mount_point: mount_point@, kind }),
    {
        DiskInfo { name, mount_point, kind }
    }
}

} // verus!
