//! The table of configured resources of a machine, which the control interface reads.

use vstd::prelude::*;

use crate::device_manager::persist::SharedDeviceType;
use crate::mmds::{Mmds, MmdsVersion};

verus! {

/// Memory that a machine has unless told otherwise, in MiB.
pub const DEFAULT_MEM_SIZE_MIB: u32 = 128;

/// Why a restored device does not fit the machine.
#[derive(Clone, Copy, Debug, PartialEq, Eq, Structural)]
pub enum ResourcesError {
    /// The balloon is meant to grow beyond the memory of the machine.
    BalloonDevice,
}

/// The devices and services that a machine is configured with. Devices are known here by
/// their identifiers; the registries own them.
#[derive(Debug)]
pub struct VmResources {
    /// Memory of the machine, in MiB.
    pub mem_size_mib: u32,
    /// The balloon device, if there is one.
    pub balloon: Option<String>,
    /// The block devices, in the order in which they were made known.
    pub block: Vec<String>,
    /// The network devices, in the order in which they were made known.
    pub net: Vec<String>,
    /// The vsock device, if there is one.
    pub vsock: Option<String>,
    /// The entropy device, if there is one.
    pub entropy: Option<String>,
    /// The metadata service, if it is configured.
    pub mmds: Option<Mmds>,
    /// The instance identifier that the metadata service tells the guest, if it was set.
    pub mmds_instance_id: Option<String>,
}

/// The table of resources as a mathematical value.
pub struct VmResourcesView {
    pub mem_size_mib: u32,
    pub balloon: Option<Seq<char>>,
    pub block: Seq<Seq<char>>,
    pub net: Seq<Seq<char>>,
    pub vsock: Option<Seq<char>>,
    pub entropy: Option<Seq<char>>,
    pub mmds: Option<Mmds>,
    pub mmds_instance_id: Option<Seq<char>>,
}

impl DeepView for VmResources {
    type V = VmResourcesView;

    open spec fn deep_view(&self) -> VmResourcesView {
        VmResourcesView {
            mem_size_mib: self.mem_size_mib,
            balloon: self.balloon.deep_view(),
            block: self.block.deep_view(),
            net: self.net.deep_view(),
            vsock: self.vsock.deep_view(),
            entropy: self.entropy.deep_view(),
            mmds: self.mmds,
            mmds_instance_id: self.mmds_instance_id.deep_view(),
        }
    }
}

/// A restored device as a mathematical value.
pub enum SharedDeviceView {
    VirtioBlock(Seq<char>),
    Network(Seq<char>),
    Balloon(Seq<char>, u32),
    Vsock(Seq<char>),
    Entropy(Seq<char>),
}

impl DeepView for SharedDeviceType {
    type V = SharedDeviceView;

    open spec fn deep_view(&self) -> SharedDeviceView {
        match self {
            SharedDeviceType::VirtioBlock(id) => SharedDeviceView::VirtioBlock(id@),
            SharedDeviceType::Network(id) => SharedDeviceView::Network(id@),
            SharedDeviceType::Balloon(id, amount_mib) => SharedDeviceView::Balloon(
                id@,
                *amount_mib,
            ),
            SharedDeviceType::Vsock(id) => SharedDeviceView::Vsock(id@),
            SharedDeviceType::Entropy(id) => SharedDeviceView::Entropy(id@),
        }
    }
}

impl VmResourcesView {
    /// The table after `device` was made known to it, or the reason why `device` does not
    /// fit the machine: block and network devices are added behind the ones known, a device
    /// of another kind takes the place of the one known, and a balloon that is meant to
    /// grow beyond the memory of the machine is refused.
    pub open spec fn updated(self, device: SharedDeviceView) -> Result<
        VmResourcesView,
        ResourcesError,
    > {
        match device {
            SharedDeviceView::VirtioBlock(id) => Ok(
                VmResourcesView { block: self.block.push(id), ..self },
            ),
            SharedDeviceView::Network(id) => Ok(VmResourcesView { net: self.net.push(id), ..self }),
            SharedDeviceView::Balloon(id, amount_mib) => if amount_mib > self.mem_size_mib {
                Err(ResourcesError::BalloonDevice)
            } else {
                Ok(VmResourcesView { balloon: Some(id), ..self })
            },
            SharedDeviceView::Vsock(id) => Ok(VmResourcesView { vsock: Some(id), ..self }),
            SharedDeviceView::Entropy(id) => Ok(VmResourcesView { entropy: Some(id), ..self }),
        }
    }

    /// The table with the metadata service configured as it is by default, unless it is
    /// configured already.
    pub open spec fn with_default_mmds(self) -> VmResourcesView {
        VmResourcesView {
            mmds: Some(
                match self.mmds {
                    Some(m) => m,
                    None => Mmds { version: MmdsVersion::V1, imds_compat: false },
                },
            ),
            ..self
        }
    }

    /// The table with the metadata service configured with `version` and `imds_compat`,
    /// telling the guest `instance_id`.
    pub open spec fn with_mmds_config(
        self,
        version: MmdsVersion,
        imds_compat: bool,
        instance_id: Seq<char>,
    ) -> VmResourcesView {
        VmResourcesView {
            mmds: Some(Mmds { version, imds_compat }),
            mmds_instance_id: Some(instance_id),
            ..self
        }
    }
}

impl VmResources {
    /// A table for a machine with the default memory and nothing configured.
    pub fn new() -> (r: Self)
        ensures
            r.deep_view() == (VmResourcesView {
                mem_size_mib: DEFAULT_MEM_SIZE_MIB,
                balloon: None,
                block: Seq::empty(),
                net: Seq::empty(),
                vsock: None,
                entropy: None,
                mmds: None,
                mmds_instance_id: None,
            }),
    {
        let r = VmResources {
            mem_size_mib: DEFAULT_MEM_SIZE_MIB,
            balloon: None,
            block: Vec::new(),
            net: Vec::new(),
            vsock: None,
            entropy: None,
            mmds: None,
            mmds_instance_id: None,
        };
        proof {
            assert(r.block.deep_view() =~= Seq::empty());
            assert(r.net.deep_view() =~= Seq::empty());
        }
        r
    }

    /// Makes a restored device known, as [`VmResourcesView::updated`] says. A refused
    /// device changes nothing.
    pub fn update_from_restored_device(&mut self, device: SharedDeviceType) -> (r: Result<
        (),
        ResourcesError,
    >)
        ensures
            match old(self).deep_view().updated(device.deep_view()) {
                Ok(after) => r is Ok && final(self).deep_view() == after,
                Err(err) => r == Err::<(), ResourcesError>(err) && final(self).deep_view() == old(
                    self,
                ).deep_view(),
            },
    {
        let ghost before = self.deep_view();
        match device {
            SharedDeviceType::VirtioBlock(id) => {
                self.block.push(id);
                proof {
                    assert(self.block.deep_view() =~= before.block.push(id@));
                }
            },
            SharedDeviceType::Network(id) => {
                self.net.push(id);
                proof {
                    assert(self.net.deep_view() =~= before.net.push(id@));
                }
            },
            SharedDeviceType::Balloon(id, amount_mib) => {
                if amount_mib > self.mem_size_mib {
                    return Err(ResourcesError::BalloonDevice);
                }
                self.balloon = Some(id);
            },
            SharedDeviceType::Vsock(id) => {
                self.vsock = Some(id);
            },
            SharedDeviceType::Entropy(id) => {
                self.entropy = Some(id);
            },
        }
        Ok(())
    }

    /// The metadata service, configured as it is by default if it was not configured.
    pub fn mmds_or_default(&mut self) -> (mmds: Mmds)
        ensures
            final(self).deep_view() == old(self).deep_view().with_default_mmds(),
            Some(mmds) == final(self).mmds,
    {
        match self.mmds {
            Some(mmds) => mmds,
            None => {
                let mmds = Mmds::default_config();
                self.mmds = Some(mmds);
                mmds
            },
        }
    }

    /// Configures the metadata service with `version` and `imds_compat`, and has it tell
    /// the guest `instance_id`.
    pub fn set_mmds_basic_config(&mut self, version: MmdsVersion, imds_compat: bool, instance_id: &str)
        ensures
            final(self).deep_view() == old(self).deep_view().with_mmds_config(
                version,
                imds_compat,
                instance_id@,
            ),
    {
        self.mmds = Some(Mmds { version, imds_compat });
        self.mmds_instance_id = Some(String::from_str(instance_id));
    }
}

} // verus!
