//! The common configuration of a PCI transport: the part of its register window in which
//! the guest agrees on features, sets up the queues and starts the device. The guest reads
//! and writes it one, two, four or eight bytes at a time, least significant byte first.

use vstd::prelude::*;

use crate::devices::virtio::mmio_registers::{
    features_of_page, features_page, with_high, with_low, STATUS_FAILED,
};
use crate::devices::virtio::pci_transport::{VirtioPciCommonConfigState, VirtioPciDevice};
use crate::devices::virtio::persist::VirtioBase;
use crate::devices::virtio::queue::{all_valid_in, Queue};
use crate::vstate::memory::GuestMemory;

verus! {

/// Offset of the four bytes that select the half of the offered features to read.
pub const COMMON_DEVICE_FEATURE_SELECT: u64 = 0x00;

/// Offset of the four bytes that read a half of the offered features.
pub const COMMON_DEVICE_FEATURE: u64 = 0x04;

/// Offset of the four bytes that select the half of the features to acknowledge.
pub const COMMON_DRIVER_FEATURE_SELECT: u64 = 0x08;

/// Offset of the four bytes that acknowledge a half of the features.
pub const COMMON_DRIVER_FEATURE: u64 = 0x0c;

/// Offset of the two bytes that hold the vector for changes of the configuration.
pub const COMMON_MSIX_CONFIG: u64 = 0x10;

/// Offset of the two bytes that read the number of queues.
pub const COMMON_NUM_QUEUES: u64 = 0x12;

/// Offset of the byte that holds the status of the device.
pub const COMMON_DEVICE_STATUS: u64 = 0x14;

/// Offset of the byte that reads how often the configuration has changed.
pub const COMMON_CONFIG_GENERATION: u64 = 0x15;

/// Offset of the two bytes that select the queue to configure.
pub const COMMON_QUEUE_SELECT: u64 = 0x16;

/// Offset of the two bytes that hold the size of the selected queue.
pub const COMMON_QUEUE_SIZE: u64 = 0x18;

/// Offset of the two bytes that hold whether the selected queue is enabled.
pub const COMMON_QUEUE_ENABLE: u64 = 0x1c;

/// Offset of the two bytes that read where in the notification area the selected queue
/// is notified, in units of the notification multiplier.
pub const COMMON_QUEUE_NOTIFY_OFF: u64 = 0x1e;

/// Offset of the eight bytes that hold the address of the descriptor table.
pub const COMMON_QUEUE_DESC: u64 = 0x20;

/// Offset of the eight bytes that hold the address of the available ring.
pub const COMMON_QUEUE_AVAIL: u64 = 0x28;

/// Offset of the eight bytes that hold the address of the used ring.
pub const COMMON_QUEUE_USED: u64 = 0x30;

/// The status with which a driver starts the device.
pub const STATUS_READY: u32 = 15;

/// A PCI transport and the bookkeeping of its device as a mathematical value.
pub struct PciConfigModel {
    pub config: VirtioPciCommonConfigState,
    pub avail_features: u64,
    pub acked_features: u64,
    pub queues: Seq<Queue>,
    /// Whether the device is activated.
    pub activated: bool,
    /// Whether the transport has activated its device.
    pub device_activated: bool,
}

/// Whether the status `status` says that the driver has started the device: it has gone
/// through every step and has not given up.
pub open spec fn driver_ready(status: u8) -> bool {
    (status as u32) & STATUS_READY == STATUS_READY && (status as u32) & STATUS_FAILED == 0
}

impl PciConfigModel {
    /// The queue that the guest has selected, if there is such a queue.
    pub open spec fn selected(self) -> Option<Queue> {
        if self.config.queue_select < self.queues.len() {
            Some(self.queues[self.config.queue_select as int])
        } else {
            None
        }
    }

    /// Whether the device runs: it is activated, by this transport or otherwise.
    pub open spec fn running(self) -> bool {
        self.activated || self.device_activated
    }

    /// What the guest reads in the byte at `offset`.
    pub open spec fn read_byte(self, offset: u64) -> u8 {
        if offset == COMMON_DEVICE_STATUS {
            self.config.driver_status
        } else if offset == COMMON_CONFIG_GENERATION {
            self.config.config_generation
        } else {
            0
        }
    }

    /// What the guest reads in the two bytes at `offset`.
    pub open spec fn read_word(self, offset: u64) -> u16 {
        if offset == COMMON_MSIX_CONFIG {
            self.config.msix_config
        } else if offset == COMMON_NUM_QUEUES {
            if self.queues.len() <= 0xffff {
                self.queues.len() as u16
            } else {
                0xffff
            }
        } else if offset == COMMON_QUEUE_SELECT {
            self.config.queue_select
        } else if offset == COMMON_QUEUE_NOTIFY_OFF {
            self.config.queue_select
        } else {
            match self.selected() {
                None => 0,
                Some(q) => if offset == COMMON_QUEUE_SIZE {
                    q.size
                } else if offset == COMMON_QUEUE_ENABLE {
                    if q.ready {
                        1u16
                    } else {
                        0u16
                    }
                } else {
                    0
                },
            }
        }
    }

    /// What the guest reads in the four bytes at `offset`. An address is read by halves,
    /// the low half first.
    pub open spec fn read_dword(self, offset: u64) -> u32 {
        if offset == COMMON_DEVICE_FEATURE_SELECT {
            self.config.device_feature_select
        } else if offset == COMMON_DEVICE_FEATURE {
            features_page(self.avail_features, self.config.device_feature_select)
        } else if offset == COMMON_DRIVER_FEATURE_SELECT {
            self.config.driver_feature_select
        } else if offset == COMMON_DRIVER_FEATURE {
            features_page(self.acked_features, self.config.driver_feature_select)
        } else {
            match self.selected() {
                None => 0,
                Some(q) => if offset == COMMON_QUEUE_DESC {
                    features_page(q.desc_table, 0)
                } else if offset == COMMON_QUEUE_DESC + 4 {
                    features_page(q.desc_table, 1)
                } else if offset == COMMON_QUEUE_AVAIL {
                    features_page(q.avail_ring, 0)
                } else if offset == COMMON_QUEUE_AVAIL + 4 {
                    features_page(q.avail_ring, 1)
                } else if offset == COMMON_QUEUE_USED {
                    features_page(q.used_ring, 0)
                } else if offset == COMMON_QUEUE_USED + 4 {
                    features_page(q.used_ring, 1)
                } else {
                    0
                },
            }
        }
    }

    /// What the guest reads in the eight bytes at `offset`.
    pub open spec fn read_qword(self, offset: u64) -> u64 {
        match self.selected() {
            None => 0,
            Some(q) => if offset == COMMON_QUEUE_DESC {
                q.desc_table
            } else if offset == COMMON_QUEUE_AVAIL {
                q.avail_ring
            } else if offset == COMMON_QUEUE_USED {
                q.used_ring
            } else {
                0
            },
        }
    }

    /// The bytes that a read of as many bytes as `before` has at `offset` gives; a read
    /// of another width than one, two, four or eight bytes leaves `before`.
    pub open spec fn read(self, offset: u64, before: Seq<u8>) -> Seq<u8> {
        if before.len() == 1 {
            seq![self.read_byte(offset)]
        } else if before.len() == 2 {
            vstd::bytes::spec_u16_to_le_bytes(self.read_word(offset))
        } else if before.len() == 4 {
            vstd::bytes::spec_u32_to_le_bytes(self.read_dword(offset))
        } else if before.len() == 8 {
            vstd::bytes::spec_u64_to_le_bytes(self.read_qword(offset))
        } else {
            before
        }
    }

    /// This model with the common configuration `config`.
    pub open spec fn with_config(self, config: VirtioPciCommonConfigState) -> PciConfigModel {
        PciConfigModel { config, ..self }
    }

    /// This model with `q` in the place of the selected queue, if the device does not run
    /// and the guest has selected a queue.
    pub open spec fn with_selected(self, q: Queue) -> PciConfigModel {
        if !self.running() && self.config.queue_select < self.queues.len() {
            PciConfigModel {
                queues: self.queues.update(self.config.queue_select as int, q),
                ..self
            }
        } else {
            self
        }
    }

    /// The model after the guest has set up nothing: the configuration untouched, no
    /// feature acknowledged, every queue unconfigured.
    pub open spec fn reset(self) -> PciConfigModel {
        PciConfigModel {
            config: VirtioPciCommonConfigState {
                driver_status: 0,
                config_generation: self.config.config_generation,
                device_feature_select: 0,
                driver_feature_select: 0,
                queue_select: 0,
                msix_config: 0,
            },
            acked_features: 0,
            queues: Seq::new(self.queues.len(), |i: int| Queue::unconfigured(self.queues[i].max_size)),
            ..self
        }
    }

    /// The model after the guest has written `status` into the status byte.
    ///
    /// Writing 0 resets a device that does not run; a device that runs cannot be reset,
    /// and has failed then. A status that says that the driver has started the device
    /// activates a device that does not run, in `mem`; if that cannot be done, the device
    /// needs a reset. Any other status is taken as it is.
    pub open spec fn status_written(self, status: u8, mem: GuestMemory) -> PciConfigModel {
        let taken = self.with_config(
            VirtioPciCommonConfigState { driver_status: status, ..self.config },
        );
        if status == 0 {
            if self.running() {
                self.with_config(
                    VirtioPciCommonConfigState {
                        driver_status: self.config.driver_status | 0x80,
                        ..self.config
                    },
                )
            } else {
                self.reset()
            }
        } else if driver_ready(status) && !self.running() {
            if all_valid_in(self.queues, &mem) {
                PciConfigModel { activated: true, device_activated: true, ..taken }
            } else {
                self.with_config(
                    VirtioPciCommonConfigState { driver_status: status | 0x40, ..self.config },
                )
            }
        } else {
            taken
        }
    }

    /// The model after the guest has written the byte `value` at `offset`.
    pub open spec fn byte_written(self, offset: u64, value: u8, mem: GuestMemory) -> PciConfigModel {
        if offset == COMMON_DEVICE_STATUS {
            self.status_written(value, mem)
        } else {
            self
        }
    }

    /// The model after the guest has written the two bytes `value` at `offset`.
    pub open spec fn word_written(self, offset: u64, value: u16) -> PciConfigModel {
        if offset == COMMON_MSIX_CONFIG {
            self.with_config(VirtioPciCommonConfigState { msix_config: value, ..self.config })
        } else if offset == COMMON_QUEUE_SELECT {
            self.with_config(VirtioPciCommonConfigState { queue_select: value, ..self.config })
        } else {
            match self.selected() {
                None => self,
                Some(q) => if offset == COMMON_QUEUE_SIZE {
                    self.with_selected(Queue { size: value, ..q })
                } else if offset == COMMON_QUEUE_ENABLE {
                    self.with_selected(Queue { ready: value == 1, ..q })
                } else {
                    self
                },
            }
        }
    }

    /// The model after the guest has written the four bytes `value` at `offset`. Only
    /// features that the device offers are acknowledged, and only while it does not run.
    pub open spec fn dword_written(self, offset: u64, value: u32) -> PciConfigModel {
        if offset == COMMON_DEVICE_FEATURE_SELECT {
            self.with_config(
                VirtioPciCommonConfigState { device_feature_select: value, ..self.config },
            )
        } else if offset == COMMON_DRIVER_FEATURE_SELECT {
            self.with_config(
                VirtioPciCommonConfigState { driver_feature_select: value, ..self.config },
            )
        } else if offset == COMMON_DRIVER_FEATURE {
            if self.running() {
                self
            } else {
                PciConfigModel {
                    acked_features: self.acked_features | (features_of_page(
                        value,
                        self.config.driver_feature_select,
                    ) & self.avail_features),
                    ..self
                }
            }
        } else {
            match self.selected() {
                None => self,
                Some(q) => if offset == COMMON_QUEUE_DESC {
                    self.with_selected(Queue { desc_table: with_low(q.desc_table, value), ..q })
                } else if offset == COMMON_QUEUE_DESC + 4 {
                    self.with_selected(Queue { desc_table: with_high(q.desc_table, value), ..q })
                } else if offset == COMMON_QUEUE_AVAIL {
                    self.with_selected(Queue { avail_ring: with_low(q.avail_ring, value), ..q })
                } else if offset == COMMON_QUEUE_AVAIL + 4 {
                    self.with_selected(Queue { avail_ring: with_high(q.avail_ring, value), ..q })
                } else if offset == COMMON_QUEUE_USED {
                    self.with_selected(Queue { used_ring: with_low(q.used_ring, value), ..q })
                } else if offset == COMMON_QUEUE_USED + 4 {
                    self.with_selected(Queue { used_ring: with_high(q.used_ring, value), ..q })
                } else {
                    self
                },
            }
        }
    }

    /// The model after the guest has written the eight bytes `value` at `offset`.
    pub open spec fn qword_written(self, offset: u64, value: u64) -> PciConfigModel {
        match self.selected() {
            None => self,
            Some(q) => if offset == COMMON_QUEUE_DESC {
                self.with_selected(Queue { desc_table: value, ..q })
            } else if offset == COMMON_QUEUE_AVAIL {
                self.with_selected(Queue { avail_ring: value, ..q })
            } else if offset == COMMON_QUEUE_USED {
                self.with_selected(Queue { used_ring: value, ..q })
            } else {
                self
            },
        }
    }

    /// The model after the guest has written `data` at `offset`; a write of another width
    /// than one, two, four or eight bytes is not taken.
    pub open spec fn written(self, offset: u64, data: Seq<u8>, mem: GuestMemory) -> PciConfigModel {
        if data.len() == 1 {
            self.byte_written(offset, data[0], mem)
        } else if data.len() == 2 {
            self.word_written(offset, vstd::bytes::spec_u16_from_le_bytes(data))
        } else if data.len() == 4 {
            self.dword_written(offset, vstd::bytes::spec_u32_from_le_bytes(data))
        } else if data.len() == 8 {
            self.qword_written(offset, vstd::bytes::spec_u64_from_le_bytes(data))
        } else {
            self
        }
    }
}

/// Whether `post` is the transport `pre` after its model has become `model`: the
/// configuration, the features, the queues and the activation are those of `model`, and
/// the transport and its device are otherwise as they were.
pub open spec fn pci_transport_became(pre: VirtioPciDevice, post: VirtioPciDevice, model: PciConfigModel) -> bool {
    &&& post.model() == model
    &&& post.id == pre.id
    &&& post.pci_device_bdf == pre.pci_device_bdf
    &&& post.msix_vectors == pre.msix_vectors
    &&& post.bar_address == pre.bar_address
    &&& post.device == pre.device.with_base(post.device.spec_base())
}

impl VirtioPciDevice {
    /// The transport and the bookkeeping of its device as a mathematical value.
    pub open spec fn model(&self) -> PciConfigModel {
        PciConfigModel {
            config: self.common_config,
            avail_features: self.device.spec_base().avail_features,
            acked_features: self.device.spec_base().acked_features,
            queues: self.device.spec_base().queues@,
            activated: self.device.spec_base().activated,
            device_activated: self.device_activated,
        }
    }

    /// The queue that the guest has selected, if there is such a queue.
    fn selected_queue(&self) -> (q: Option<Queue>)
        ensures
            q == self.model().selected(),
    {
        let base = self.device.base();
        let place = self.common_config.queue_select as usize;
        if place < base.queues.len() {
            Some(base.queues[place])
        } else {
            None
        }
    }

    /// What the guest reads in the byte at `offset`.
    fn read_byte(&self, offset: u64) -> (value: u8)
        ensures
            value == self.model().read_byte(offset),
    {
        if offset == COMMON_DEVICE_STATUS {
            self.common_config.driver_status
        } else if offset == COMMON_CONFIG_GENERATION {
            self.common_config.config_generation
        } else {
            0
        }
    }

    /// What the guest reads in the two bytes at `offset`.
    fn read_word(&self, offset: u64) -> (value: u16)
        ensures
            value == self.model().read_word(offset),
    {
        if offset == COMMON_MSIX_CONFIG {
            self.common_config.msix_config
        } else if offset == COMMON_NUM_QUEUES {
            let count = self.device.num_queues();
            if count <= 0xffff {
                count as u16
            } else {
                0xffff
            }
        } else if offset == COMMON_QUEUE_SELECT || offset == COMMON_QUEUE_NOTIFY_OFF {
            self.common_config.queue_select
        } else {
            match self.selected_queue() {
                None => 0,
                Some(q) => if offset == COMMON_QUEUE_SIZE {
                    q.size
                } else if offset == COMMON_QUEUE_ENABLE {
                    if q.ready {
                        1
                    } else {
                        0
                    }
                } else {
                    0
                },
            }
        }
    }

    /// What the guest reads in the four bytes at `offset`.
    fn read_dword(&self, offset: u64) -> (value: u32)
        ensures
            value == self.model().read_dword(offset),
    {
        if offset == COMMON_DEVICE_FEATURE_SELECT {
            self.common_config.device_feature_select
        } else if offset == COMMON_DEVICE_FEATURE {
            half(self.device.base().avail_features, self.common_config.device_feature_select)
        } else if offset == COMMON_DRIVER_FEATURE_SELECT {
            self.common_config.driver_feature_select
        } else if offset == COMMON_DRIVER_FEATURE {
            half(self.device.base().acked_features, self.common_config.driver_feature_select)
        } else {
            match self.selected_queue() {
                None => 0,
                Some(q) => if offset == COMMON_QUEUE_DESC {
                    half(q.desc_table, 0)
                } else if offset == COMMON_QUEUE_DESC + 4 {
                    half(q.desc_table, 1)
                } else if offset == COMMON_QUEUE_AVAIL {
                    half(q.avail_ring, 0)
                } else if offset == COMMON_QUEUE_AVAIL + 4 {
                    half(q.avail_ring, 1)
                } else if offset == COMMON_QUEUE_USED {
                    half(q.used_ring, 0)
                } else if offset == COMMON_QUEUE_USED + 4 {
                    half(q.used_ring, 1)
                } else {
                    0
                },
            }
        }
    }

    /// What the guest reads in the eight bytes at `offset`.
    fn read_qword(&self, offset: u64) -> (value: u64)
        ensures
            value == self.model().read_qword(offset),
    {
        match self.selected_queue() {
            None => 0,
            Some(q) => if offset == COMMON_QUEUE_DESC {
                q.desc_table
            } else if offset == COMMON_QUEUE_AVAIL {
                q.avail_ring
            } else if offset == COMMON_QUEUE_USED {
                q.used_ring
            } else {
                0
            },
        }
    }

    /// Serves a read of the guest in the common configuration at `offset` into `data`:
    /// see [`PciConfigModel::read`].
    pub fn read_common_config(&self, offset: u64, data: &mut Vec<u8>)
        ensures
            final(data)@ == self.model().read(offset, old(data)@),
    {
        let width = data.len();
        if width == 1 {
            data.set(0, self.read_byte(offset));
            proof {
                assert(final(data)@ =~= seq![self.model().read_byte(offset)]);
            }
        } else if width == 2 {
            *data = vstd::bytes::u16_to_le_bytes(self.read_word(offset));
        } else if width == 4 {
            *data = vstd::bytes::u32_to_le_bytes(self.read_dword(offset));
        } else if width == 8 {
            *data = vstd::bytes::u64_to_le_bytes(self.read_qword(offset));
        }
    }

    /// Puts `q` in the place of the queue that the guest has selected, if the device does
    /// not run and the guest has selected a queue.
    fn set_selected(&mut self, q: Queue)
        ensures
            pci_transport_became(*old(self), *final(self), old(self).model().with_selected(q)),
    {
        let place = self.common_config.queue_select as usize;
        if !self.device.is_activated() && !self.device_activated && place
            < self.device.num_queues() {
            let mut base = self.device.replace_base(
                VirtioBase {
                    avail_features: 0,
                    acked_features: 0,
                    queues: Vec::new(),
                    activated: false,
                },
            );
            base.queues.set(place, q);
            let _ = self.device.replace_base(base);
        }
    }

    /// Forgets what the guest has set up: see [`PciConfigModel::reset`].
    fn reset(&mut self)
        ensures
            pci_transport_became(*old(self), *final(self), old(self).model().reset()),
    {
        let mut base = self.device.replace_base(
            VirtioBase { avail_features: 0, acked_features: 0, queues: Vec::new(), activated: false },
        );
        let ghost before = base.queues@;
        let ghost taken = base;
        let mut i: usize = 0;
        while i < base.queues.len()
            invariant
                0 <= i <= base.queues.len(),
                base.avail_features == taken.avail_features,
                base.activated == taken.activated,
                base.queues.len() == before.len(),
                forall|j: int| 0 <= j < i ==> base.queues[j] == Queue::unconfigured(before[j].max_size),
                forall|j: int| i <= j < before.len() ==> base.queues[j] == before[j],
            decreases base.queues.len() - i,
        {
            let max_size = base.queues[i].max_size;
            base.queues.set(i, Queue::new(max_size));
            i += 1;
        }
        base.acked_features = 0;
        proof {
            assert(base.queues@ =~= old(self).model().reset().queues);
        }
        let _ = self.device.replace_base(base);
        self.common_config = VirtioPciCommonConfigState {
            driver_status: 0,
            config_generation: self.common_config.config_generation,
            device_feature_select: 0,
            driver_feature_select: 0,
            queue_select: 0,
            msix_config: 0,
        };
    }

    /// Takes `status`, which the guest has written into the status byte: see
    /// [`PciConfigModel::status_written`].
    pub fn set_driver_status(&mut self, status: u8, mem: &GuestMemory)
        ensures
            pci_transport_became(
                *old(self),
                *final(self),
                old(self).model().status_written(status, *mem),
            ),
    {
        let running = self.device.is_activated() || self.device_activated;
        if status == 0 {
            if running {
                self.common_config.driver_status = self.common_config.driver_status | 0x80;
            } else {
                self.reset();
            }
        } else if (status as u32) & STATUS_READY == STATUS_READY && (status as u32) & STATUS_FAILED
            == 0 && !running {
            if self.device.activate(mem).is_ok() {
                self.common_config.driver_status = status;
                self.device_activated = true;
            } else {
                self.common_config.driver_status = status | 0x40;
            }
        } else {
            self.common_config.driver_status = status;
        }
    }

    /// Takes the four bytes `value`, which the guest has written at `offset`.
    fn write_dword(&mut self, offset: u64, value: u32)
        ensures
            pci_transport_became(
                *old(self),
                *final(self),
                old(self).model().dword_written(offset, value),
            ),
    {
        if offset == COMMON_DEVICE_FEATURE_SELECT {
            self.common_config.device_feature_select = value;
        } else if offset == COMMON_DRIVER_FEATURE_SELECT {
            self.common_config.driver_feature_select = value;
        } else if offset == COMMON_DRIVER_FEATURE {
            if !self.device.is_activated() && !self.device_activated {
                let page = self.common_config.driver_feature_select;
                let named: u64 = if page == 0 {
                    value as u64
                } else if page == 1 {
                    (value as u64) << 32
                } else {
                    0
                };
                let mut base = self.device.replace_base(
                    VirtioBase {
                        avail_features: 0,
                        acked_features: 0,
                        queues: Vec::new(),
                        activated: false,
                    },
                );
                base.acked_features = base.acked_features | (named & base.avail_features);
                let _ = self.device.replace_base(base);
            }
        } else {
            match self.selected_queue() {
                None => {},
                Some(q) => {
                    let low: u64 = value as u64;
                    let high: u64 = (value as u64) << 32;
                    if offset == COMMON_QUEUE_DESC {
                        self.set_selected(
                            Queue { desc_table: (q.desc_table & 0xffff_ffff_0000_0000) | low, ..q },
                        );
                    } else if offset == COMMON_QUEUE_DESC + 4 {
                        self.set_selected(
                            Queue { desc_table: (q.desc_table & 0xffff_ffff) | high, ..q },
                        );
                    } else if offset == COMMON_QUEUE_AVAIL {
                        self.set_selected(
                            Queue { avail_ring: (q.avail_ring & 0xffff_ffff_0000_0000) | low, ..q },
                        );
                    } else if offset == COMMON_QUEUE_AVAIL + 4 {
                        self.set_selected(
                            Queue { avail_ring: (q.avail_ring & 0xffff_ffff) | high, ..q },
                        );
                    } else if offset == COMMON_QUEUE_USED {
                        self.set_selected(
                            Queue { used_ring: (q.used_ring & 0xffff_ffff_0000_0000) | low, ..q },
                        );
                    } else if offset == COMMON_QUEUE_USED + 4 {
                        self.set_selected(
                            Queue { used_ring: (q.used_ring & 0xffff_ffff) | high, ..q },
                        );
                    }
                },
            }
        }
    }

    /// Takes the two bytes `value`, which the guest has written at `offset`.
    fn write_word(&mut self, offset: u64, value: u16)
        ensures
            pci_transport_became(
                *old(self),
                *final(self),
                old(self).model().word_written(offset, value),
            ),
    {
        if offset == COMMON_MSIX_CONFIG {
            self.common_config.msix_config = value;
        } else if offset == COMMON_QUEUE_SELECT {
            self.common_config.queue_select = value;
        } else {
            match self.selected_queue() {
                None => {},
                Some(q) => {
                    if offset == COMMON_QUEUE_SIZE {
                        self.set_selected(Queue { size: value, ..q });
                    } else if offset == COMMON_QUEUE_ENABLE {
                        self.set_selected(Queue { ready: value == 1, ..q });
                    }
                },
            }
        }
    }

    /// Takes the eight bytes `value`, which the guest has written at `offset`.
    fn write_qword(&mut self, offset: u64, value: u64)
        ensures
            pci_transport_became(
                *old(self),
                *final(self),
                old(self).model().qword_written(offset, value),
            ),
    {
        match self.selected_queue() {
            None => {},
            Some(q) => {
                if offset == COMMON_QUEUE_DESC {
                    self.set_selected(Queue { desc_table: value, ..q });
                } else if offset == COMMON_QUEUE_AVAIL {
                    self.set_selected(Queue { avail_ring: value, ..q });
                } else if offset == COMMON_QUEUE_USED {
                    self.set_selected(Queue { used_ring: value, ..q });
                }
            },
        }
    }

    /// Serves a write of the guest of `data` into the common configuration at `offset`:
    /// see [`PciConfigModel::written`].
    pub fn write_common_config(&mut self, offset: u64, data: &[u8], mem: &GuestMemory)
        ensures
            pci_transport_became(
                *old(self),
                *final(self),
                old(self).model().written(offset, data@, *mem),
            ),
    {
        let width = data.len();
        if width == 1 {
            if offset == COMMON_DEVICE_STATUS {
                self.set_driver_status(data[0], mem);
            }
        } else if width == 2 {
            self.write_word(offset, vstd::bytes::u16_from_le_bytes(data));
        } else if width == 4 {
            self.write_dword(offset, vstd::bytes::u32_from_le_bytes(data));
        } else if width == 8 {
            self.write_qword(offset, vstd::bytes::u64_from_le_bytes(data));
        }
    }
}

/// The half `page` of `value`: the low half for 0, the high half for 1, and nothing for
/// any other page.
fn half(value: u64, page: u32) -> (r: u32)
    ensures
        r == features_page(value, page),
{
    if page == 0 {
        (value & 0xffff_ffff) as u32
    } else if page == 1 {
        (value >> 32) as u32
    } else {
        0
    }
}

} // verus!
