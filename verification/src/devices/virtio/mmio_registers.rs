//! The register window of a memory-mapped transport: what the guest reads and writes there
//! to find the device, to agree on features, to set up the queues and to start the device.

use vstd::prelude::*;

use crate::devices::virtio::persist::VirtioBase;
use crate::devices::virtio::queue::{all_valid_in, Queue};
use crate::devices::virtio::transport::{MmioTransport, MmioTransportState};
use crate::vstate::memory::GuestMemory;

verus! {

/// What the register at offset 0 reads: the letters `virt`.
pub const MMIO_MAGIC_VALUE: u32 = 0x7472_6976;

/// Version of the register layout.
pub const MMIO_VERSION: u32 = 2;

/// Identifier of the vendor of the device.
pub const VENDOR_ID: u32 = 0;

/// Offset of the register that reads the magic value.
pub const REG_MAGIC: u64 = 0x00;

/// Offset of the register that reads the version.
pub const REG_VERSION: u64 = 0x04;

/// Offset of the register that reads the type of the device.
pub const REG_DEVICE_ID: u64 = 0x08;

/// Offset of the register that reads the vendor.
pub const REG_VENDOR_ID: u64 = 0x0c;

/// Offset of the register that reads a half of the offered features.
pub const REG_DEVICE_FEATURES: u64 = 0x10;

/// Offset of the register that selects the half of the offered features to read.
pub const REG_DEVICE_FEATURES_SEL: u64 = 0x14;

/// Offset of the register that acknowledges a half of the features.
pub const REG_DRIVER_FEATURES: u64 = 0x20;

/// Offset of the register that selects the half of the features to acknowledge.
pub const REG_DRIVER_FEATURES_SEL: u64 = 0x24;

/// Offset of the register that selects the queue to configure.
pub const REG_QUEUE_SEL: u64 = 0x30;

/// Offset of the register that reads the largest size of the selected queue.
pub const REG_QUEUE_NUM_MAX: u64 = 0x34;

/// Offset of the register that sets the size of the selected queue.
pub const REG_QUEUE_NUM: u64 = 0x38;

/// Offset of the register that reads and sets whether the selected queue is ready.
pub const REG_QUEUE_READY: u64 = 0x44;

/// Offset of the register that reads the interrupts that wait.
pub const REG_INTERRUPT_STATUS: u64 = 0x60;

/// Offset of the register that acknowledges interrupts.
pub const REG_INTERRUPT_ACK: u64 = 0x64;

/// Offset of the register that reads and sets the status of the device.
pub const REG_STATUS: u64 = 0x70;

/// Offset of the register that sets the low half of the address of the descriptor table.
pub const REG_QUEUE_DESC_LOW: u64 = 0x80;

/// Offset of the register that sets the high half of the address of the descriptor table.
pub const REG_QUEUE_DESC_HIGH: u64 = 0x84;

/// Offset of the register that sets the low half of the address of the available ring.
pub const REG_QUEUE_AVAIL_LOW: u64 = 0x90;

/// Offset of the register that sets the high half of the address of the available ring.
pub const REG_QUEUE_AVAIL_HIGH: u64 = 0x94;

/// Offset of the register that sets the low half of the address of the used ring.
pub const REG_QUEUE_USED_LOW: u64 = 0xa0;

/// Offset of the register that sets the high half of the address of the used ring.
pub const REG_QUEUE_USED_HIGH: u64 = 0xa4;

/// Offset of the register that reads how often the configuration has changed.
pub const REG_CONFIG_GENERATION: u64 = 0xfc;

/// Status bit: the guest has found the device.
pub const STATUS_ACKNOWLEDGE: u32 = 1;

/// Status bit: the guest has a driver for the device.
pub const STATUS_DRIVER: u32 = 2;

/// Status bit: the driver is set up and the device may run.
pub const STATUS_DRIVER_OK: u32 = 4;

/// Status bit: the driver has acknowledged the features it wants.
pub const STATUS_FEATURES_OK: u32 = 8;

/// Status bit: the device has met an error from which it cannot recover.
pub const STATUS_DEVICE_NEEDS_RESET: u32 = 64;

/// Status bit: the guest has given up on the device.
pub const STATUS_FAILED: u32 = 128;

/// A transport and the bookkeeping of its device as a mathematical value.
pub struct TransportModel {
    pub state: MmioTransportState,
    pub device_type: u32,
    pub avail_features: u64,
    pub acked_features: u64,
    pub queues: Seq<Queue>,
    pub activated: bool,
}

/// The half `page` of the features `features`: the low half for 0, the high half for 1,
/// and nothing for any other page.
pub open spec fn features_page(features: u64, page: u32) -> u32 {
    if page == 0 {
        (features & 0xffff_ffff) as u32
    } else if page == 1 {
        (features >> 32) as u32
    } else {
        0
    }
}

/// The features that `value`, written for the half `page`, names.
pub open spec fn features_of_page(value: u32, page: u32) -> u64 {
    if page == 0 {
        value as u64
    } else if page == 1 {
        (value as u64) << 32
    } else {
        0
    }
}

/// The address `addr` with its low half replaced by `value`.
pub open spec fn with_low(addr: u64, value: u32) -> u64 {
    (addr & 0xffff_ffff_0000_0000) | (value as u64)
}

/// The address `addr` with its high half replaced by `value`.
pub open spec fn with_high(addr: u64, value: u32) -> u64 {
    (addr & 0xffff_ffff) | ((value as u64) << 32)
}

impl TransportModel {
    /// The queue that the guest has selected, if there is such a queue.
    pub open spec fn selected(self) -> Option<Queue> {
        if self.state.queue_select < self.queues.len() {
            Some(self.queues[self.state.queue_select as int])
        } else {
            None
        }
    }

    /// Whether the driver may acknowledge features: it has announced itself and has not
    /// yet said that it is done with the features, and nothing has failed.
    pub open spec fn negotiating(self) -> bool {
        self.state.device_status & STATUS_DRIVER != 0 && self.state.device_status & (
        STATUS_FEATURES_OK | STATUS_FAILED | STATUS_DEVICE_NEEDS_RESET) == 0
    }

    /// Whether the driver may configure the queues: it is done with the features and has
    /// not yet started the device, and nothing has failed.
    pub open spec fn configuring(self) -> bool {
        self.state.device_status & STATUS_FEATURES_OK != 0 && self.state.device_status & (
        STATUS_DRIVER_OK | STATUS_FAILED) == 0
    }

    /// What the guest reads in the register at `offset`. A register that cannot be read
    /// reads as 0.
    pub open spec fn read(self, offset: u64) -> u32 {
        if offset == REG_MAGIC {
            MMIO_MAGIC_VALUE
        } else if offset == REG_VERSION {
            MMIO_VERSION
        } else if offset == REG_DEVICE_ID {
            self.device_type
        } else if offset == REG_VENDOR_ID {
            VENDOR_ID
        } else if offset == REG_DEVICE_FEATURES {
            features_page(self.avail_features, self.state.features_select)
        } else if offset == REG_QUEUE_NUM_MAX {
            match self.selected() {
                Some(q) => q.max_size as u32,
                None => 0,
            }
        } else if offset == REG_QUEUE_READY {
            match self.selected() {
                Some(q) => if q.ready {
                    1u32
                } else {
                    0u32
                },
                None => 0,
            }
        } else if offset == REG_INTERRUPT_STATUS {
            self.state.interrupt_status
        } else if offset == REG_STATUS {
            self.state.device_status
        } else if offset == REG_CONFIG_GENERATION {
            self.state.config_generation
        } else {
            0
        }
    }

    /// This model with the transport state `state`.
    pub open spec fn with_state(self, state: MmioTransportState) -> TransportModel {
        TransportModel { state, ..self }
    }

    /// This model with `q` in the place of the selected queue, if the driver may configure
    /// the queues and has selected one.
    pub open spec fn with_selected(self, q: Queue) -> TransportModel {
        if self.configuring() && self.state.queue_select < self.queues.len() {
            TransportModel { queues: self.queues.update(self.state.queue_select as int, q), ..self }
        } else {
            self
        }
    }

    /// The model after the guest has set up nothing: the transport as it was made, no
    /// feature acknowledged, every queue unconfigured.
    pub open spec fn reset(self) -> TransportModel {
        TransportModel {
            state: MmioTransportState {
                features_select: 0,
                acked_features_select: 0,
                queue_select: 0,
                device_status: 0,
                config_generation: self.state.config_generation,
                interrupt_status: 0,
            },
            acked_features: 0,
            queues: Seq::new(self.queues.len(), |i: int| Queue::unconfigured(self.queues[i].max_size)),
            ..self
        }
    }

    /// The model after the guest has written `status` into the status register.
    ///
    /// The driver goes forward one step at a time: it acknowledges the device, announces
    /// itself, says that the features are agreed, and starts the device. Starting
    /// activates the device in `mem`; if that cannot be done, the device needs a reset.
    /// The guest can give up on the device at any time. Writing 0 resets a device that is
    /// not activated; a device that is activated cannot be reset, and has failed then.
    /// Any other write changes nothing.
    pub open spec fn status_written(self, status: u32, mem: GuestMemory) -> TransportModel {
        let now = self.state.device_status;
        let set = !now & status;
        let stepped = self.with_state(MmioTransportState { device_status: status, ..self.state });
        if set == STATUS_ACKNOWLEDGE && now == 0 {
            stepped
        } else if set == STATUS_DRIVER && now == STATUS_ACKNOWLEDGE {
            stepped
        } else if set == STATUS_FEATURES_OK && now == (STATUS_ACKNOWLEDGE | STATUS_DRIVER) {
            stepped
        } else if set == STATUS_DRIVER_OK && now == (STATUS_ACKNOWLEDGE | STATUS_DRIVER
            | STATUS_FEATURES_OK) {
            if self.activated {
                stepped
            } else if all_valid_in(self.queues, &mem) {
                TransportModel { activated: true, ..stepped }
            } else {
                self.with_state(
                    MmioTransportState {
                        device_status: status | STATUS_DEVICE_NEEDS_RESET,
                        ..self.state
                    },
                )
            }
        } else if status & STATUS_FAILED != 0 {
            self.with_state(
                MmioTransportState { device_status: now | STATUS_FAILED, ..self.state },
            )
        } else if status == 0 {
            if self.activated {
                self.with_state(
                    MmioTransportState { device_status: now | STATUS_FAILED, ..self.state },
                )
            } else {
                self.reset()
            }
        } else {
            self
        }
    }

    /// The model after the guest has written `value` into the register at `offset`. A
    /// register that cannot be written takes nothing.
    pub open spec fn written(self, offset: u64, value: u32, mem: GuestMemory) -> TransportModel {
        if offset == REG_DEVICE_FEATURES_SEL {
            self.with_state(MmioTransportState { features_select: value, ..self.state })
        } else if offset == REG_DRIVER_FEATURES {
            if self.negotiating() {
                TransportModel {
                    acked_features: self.acked_features | (features_of_page(
                        value,
                        self.state.acked_features_select,
                    ) & self.avail_features),
                    ..self
                }
            } else {
                self
            }
        } else if offset == REG_DRIVER_FEATURES_SEL {
            self.with_state(MmioTransportState { acked_features_select: value, ..self.state })
        } else if offset == REG_QUEUE_SEL {
            self.with_state(MmioTransportState { queue_select: value, ..self.state })
        } else if offset == REG_INTERRUPT_ACK {
            self.with_state(
                MmioTransportState {
                    interrupt_status: self.state.interrupt_status & !value,
                    ..self.state
                },
            )
        } else if offset == REG_STATUS {
            self.status_written(value, mem)
        } else {
            match self.selected() {
                None => self,
                Some(q) => if offset == REG_QUEUE_NUM {
                    self.with_selected(Queue { size: (value & 0xffff) as u16, ..q })
                } else if offset == REG_QUEUE_READY {
                    self.with_selected(Queue { ready: value == 1, ..q })
                } else if offset == REG_QUEUE_DESC_LOW {
                    self.with_selected(Queue { desc_table: with_low(q.desc_table, value), ..q })
                } else if offset == REG_QUEUE_DESC_HIGH {
                    self.with_selected(Queue { desc_table: with_high(q.desc_table, value), ..q })
                } else if offset == REG_QUEUE_AVAIL_LOW {
                    self.with_selected(Queue { avail_ring: with_low(q.avail_ring, value), ..q })
                } else if offset == REG_QUEUE_AVAIL_HIGH {
                    self.with_selected(Queue { avail_ring: with_high(q.avail_ring, value), ..q })
                } else if offset == REG_QUEUE_USED_LOW {
                    self.with_selected(Queue { used_ring: with_low(q.used_ring, value), ..q })
                } else if offset == REG_QUEUE_USED_HIGH {
                    self.with_selected(Queue { used_ring: with_high(q.used_ring, value), ..q })
                } else {
                    self
                },
            }
        }
    }
}

/// Whether `post` is the transport `pre` after its model has become `model`: the device
/// has the features, queues and activation of `model` and is otherwise as it was.
pub open spec fn transport_became(pre: MmioTransport, post: MmioTransport, model: TransportModel) -> bool {
    &&& post.model() == model
    &&& post.is_vhost_user == pre.is_vhost_user
    &&& post.device == pre.device.with_base(post.device.spec_base())
}

impl MmioTransport {
    /// The transport and the bookkeeping of its device as a mathematical value.
    pub open spec fn model(&self) -> TransportModel {
        TransportModel {
            state: self.state,
            device_type: self.device.spec_device_type(),
            avail_features: self.device.spec_base().avail_features,
            acked_features: self.device.spec_base().acked_features,
            queues: self.device.spec_base().queues@,
            activated: self.device.spec_base().activated,
        }
    }

    /// What the guest reads in the register at `offset`: see [`TransportModel::read`].
    pub fn read_register(&self, offset: u64) -> (value: u32)
        ensures
            value == self.model().read(offset),
    {
        let base = self.device.base();
        if offset == REG_MAGIC {
            MMIO_MAGIC_VALUE
        } else if offset == REG_VERSION {
            MMIO_VERSION
        } else if offset == REG_DEVICE_ID {
            self.device.device_type()
        } else if offset == REG_VENDOR_ID {
            VENDOR_ID
        } else if offset == REG_DEVICE_FEATURES {
            let page = self.state.features_select;
            if page == 0 {
                (base.avail_features & 0xffff_ffff) as u32
            } else if page == 1 {
                (base.avail_features >> 32) as u32
            } else {
                0
            }
        } else if offset == REG_QUEUE_NUM_MAX {
            if (self.state.queue_select as usize) < base.queues.len() {
                base.queues[self.state.queue_select as usize].max_size as u32
            } else {
                0
            }
        } else if offset == REG_QUEUE_READY {
            if (self.state.queue_select as usize) < base.queues.len() {
                if base.queues[self.state.queue_select as usize].ready {
                    1
                } else {
                    0
                }
            } else {
                0
            }
        } else if offset == REG_INTERRUPT_STATUS {
            self.state.interrupt_status
        } else if offset == REG_STATUS {
            self.state.device_status
        } else if offset == REG_CONFIG_GENERATION {
            self.state.config_generation
        } else {
            0
        }
    }

    /// Serves a read of the guest at `offset` into `data`. The registers are four bytes
    /// wide, least significant byte first; a read of another width leaves `data` as it is.
    pub fn bus_read(&self, offset: u64, data: &mut Vec<u8>)
        ensures
            final(data)@ == (if old(data).len() == 4 {
                vstd::bytes::spec_u32_to_le_bytes(self.model().read(offset))
            } else {
                old(data)@
            }),
    {
        if data.len() != 4 {
            return;
        }
        *data = vstd::bytes::u32_to_le_bytes(self.read_register(offset));
    }

    /// Puts `q` in the place of the queue that the guest has selected, if the driver may
    /// configure the queues and has selected one.
    fn set_selected(&mut self, q: Queue)
        ensures
            transport_became(*old(self), *final(self), old(self).model().with_selected(q)),
    {
        let status = self.state.device_status;
        let place = self.state.queue_select as usize;
        if status & STATUS_FEATURES_OK != 0 && status & (STATUS_DRIVER_OK | STATUS_FAILED) == 0
            && place < self.device.num_queues() {
            let mut base = self.device.replace_base(
                VirtioBase {
                    avail_features: 0,
                    acked_features: 0,
                    queues: Vec::new(),
                    activated: false,
                },
            );
            base.queues.set(place, q);
            let _ = self.device.replace_base(base);
        }
    }

    /// Takes `status`, which the guest has written into the status register: see
    /// [`TransportModel::status_written`].
    pub fn set_device_status(&mut self, status: u32, mem: &GuestMemory)
        ensures
            transport_became(
                *old(self),
                *final(self),
                old(self).model().status_written(status, *mem),
            ),
    {
        let now = self.state.device_status;
        let set = !now & status;
        if set == STATUS_ACKNOWLEDGE && now == 0 {
            self.state.device_status = status;
        } else if set == STATUS_DRIVER && now == STATUS_ACKNOWLEDGE {
            self.state.device_status = status;
        } else if set == STATUS_FEATURES_OK && now == (STATUS_ACKNOWLEDGE | STATUS_DRIVER) {
            self.state.device_status = status;
        } else if set == STATUS_DRIVER_OK && now == (STATUS_ACKNOWLEDGE | STATUS_DRIVER
            | STATUS_FEATURES_OK) {
            self.state.device_status = status;
            if !self.device.is_activated() {
                if self.device.activate(mem).is_err() {
                    self.state.device_status = status | STATUS_DEVICE_NEEDS_RESET;
                }
            }
        } else if status & STATUS_FAILED != 0 {
            self.state.device_status = now | STATUS_FAILED;
        } else if status == 0 {
            if self.device.is_activated() {
                self.state.device_status = now | STATUS_FAILED;
            } else {
                self.reset();
            }
        }
    }

    /// Forgets what the guest has set up: see [`TransportModel::reset`].
    fn reset(&mut self)
        ensures
            transport_became(*old(self), *final(self), old(self).model().reset()),
    {
        let mut base = self.device.replace_base(
            VirtioBase { avail_features: 0, acked_features: 0, queues: Vec::new(), activated: false },
        );
        let ghost before = base.queues@;
        let ghost taken = base;
        let mut i: usize = 0;
        while i < base.queues.len()
            invariant
                0 <= i <= base.queues.len(),
                base.avail_features == taken.avail_features,
                base.activated == taken.activated,
                base.queues.len() == before.len(),
                forall|j: int| 0 <= j < i ==> base.queues[j] == Queue::unconfigured(before[j].max_size),
                forall|j: int| i <= j < before.len() ==> base.queues[j] == before[j],
            decreases base.queues.len() - i,
        {
            let max_size = base.queues[i].max_size;
            base.queues.set(i, Queue::new(max_size));
            i += 1;
        }
        base.acked_features = 0;
        proof {
            assert(base.queues@ =~= old(self).model().reset().queues);
        }
        let _ = self.device.replace_base(base);
        self.state = MmioTransportState {
            features_select: 0,
            acked_features_select: 0,
            queue_select: 0,
            device_status: 0,
            config_generation: self.state.config_generation,
            interrupt_status: 0,
        };
    }

    /// Takes `value`, which the guest has written into the register at `offset`: see
    /// [`TransportModel::written`].
    pub fn write_register(&mut self, offset: u64, value: u32, mem: &GuestMemory)
        ensures
            transport_became(
                *old(self),
                *final(self),
                old(self).model().written(offset, value, *mem),
            ),
    {
        if offset == REG_DEVICE_FEATURES_SEL {
            self.state.features_select = value;
        } else if offset == REG_DRIVER_FEATURES {
            let status = self.state.device_status;
            if status & STATUS_DRIVER != 0 && status & (STATUS_FEATURES_OK | STATUS_FAILED
                | STATUS_DEVICE_NEEDS_RESET) == 0 {
                let page = self.state.acked_features_select;
                let named: u64 = if page == 0 {
                    value as u64
                } else if page == 1 {
                    (value as u64) << 32
                } else {
                    0
                };
                let mut base = self.device.replace_base(
                    VirtioBase {
                        avail_features: 0,
                        acked_features: 0,
                        queues: Vec::new(),
                        activated: false,
                    },
                );
                base.acked_features = base.acked_features | (named & base.avail_features);
                let _ = self.device.replace_base(base);
            }
        } else if offset == REG_DRIVER_FEATURES_SEL {
            self.state.acked_features_select = value;
        } else if offset == REG_QUEUE_SEL {
            self.state.queue_select = value;
        } else if offset == REG_INTERRUPT_ACK {
            self.state.interrupt_status = self.state.interrupt_status & !value;
        } else if offset == REG_STATUS {
            self.set_device_status(value, mem);
        } else if (self.state.queue_select as usize) < self.device.num_queues() {
            let q = self.device.base().queues[self.state.queue_select as usize];
            if offset == REG_QUEUE_NUM {
                assert(value & 0xffff <= 0xffff) by (bit_vector);
                self.set_selected(Queue { size: (value & 0xffff) as u16, ..q });
            } else if offset == REG_QUEUE_READY {
                self.set_selected(Queue { ready: value == 1, ..q });
            } else if offset == REG_QUEUE_DESC_LOW {
                self.set_selected(
                    Queue {
                        desc_table: (q.desc_table & 0xffff_ffff_0000_0000) | (value as u64),
                        ..q
                    },
                );
            } else if offset == REG_QUEUE_DESC_HIGH {
                self.set_selected(
                    Queue { desc_table: (q.desc_table & 0xffff_ffff) | ((value as u64) << 32), ..q },
                );
            } else if offset == REG_QUEUE_AVAIL_LOW {
                self.set_selected(
                    Queue {
                        avail_ring: (q.avail_ring & 0xffff_ffff_0000_0000) | (value as u64),
                        ..q
                    },
                );
            } else if offset == REG_QUEUE_AVAIL_HIGH {
                self.set_selected(
                    Queue { avail_ring: (q.avail_ring & 0xffff_ffff) | ((value as u64) << 32), ..q },
                );
            } else if offset == REG_QUEUE_USED_LOW {
                self.set_selected(
                    Queue {
                        used_ring: (q.used_ring & 0xffff_ffff_0000_0000) | (value as u64),
                        ..q
                    },
                );
            } else if offset == REG_QUEUE_USED_HIGH {
                self.set_selected(
                    Queue { used_ring: (q.used_ring & 0xffff_ffff) | ((value as u64) << 32), ..q },
                );
            }
        }
    }

    /// Serves a write of the guest of `data` at `offset`. The registers are four bytes
    /// wide, least significant byte first; a write of another width is not taken.
    pub fn bus_write(&mut self, offset: u64, data: &[u8], mem: &GuestMemory)
        ensures
            transport_became(
                *old(self),
                *final(self),
                if data.len() == 4 {
                    old(self).model().written(
                        offset,
                        vstd::bytes::spec_u32_from_le_bytes(data@),
                        *mem,
                    )
                } else {
                    old(self).model()
                },
            ),
    {
        if data.len() != 4 {
            return;
        }
        let value = vstd::bytes::u32_from_le_bytes(data);
        self.write_register(offset, value, mem);
    }
}

} // verus!
