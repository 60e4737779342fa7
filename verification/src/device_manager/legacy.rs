//! The legacy devices of the port I/O space: the serial ports and the i8042 controller.

use vstd::prelude::*;

use crate::devices::legacy::i8042::I8042Device;
use crate::vstate::vm::{HostAction, Vm};

verus! {

/// Interrupt line of the first and third serial port.
pub const COM_EVT_1_3_GSI: u32 = 4;

/// Interrupt line of the second and fourth serial port.
pub const COM_EVT_2_4_GSI: u32 = 3;

/// Interrupt line of the keyboard.
pub const KBD_EVT_GSI: u32 = 1;

/// Offset of the register of the serial console that enables its interrupts.
pub const IER_RDA_OFFSET: u8 = 1;

/// The bit of that register that enables the interrupt for received data.
pub const IER_RDA_BIT: u8 = 0b0000_0001;

/// The legacy devices. They carry no state that a snapshot would hold: they are made anew
/// whenever a machine is made or restored.
#[derive(Debug)]
pub struct PortIODeviceManager {
    /// The i8042 controller.
    pub i8042: I8042Device,
}

/// The requests that connect the interrupt lines of the legacy devices.
pub open spec fn legacy_irq_actions() -> Seq<HostAction> {
    seq![
        HostAction::RegisterIrq { gsi: COM_EVT_1_3_GSI },
        HostAction::RegisterIrq { gsi: COM_EVT_2_4_GSI },
        HostAction::RegisterIrq { gsi: KBD_EVT_GSI },
    ]
}

impl PortIODeviceManager {
    /// The legacy devices around the controller `i8042`.
    pub fn new(i8042: I8042Device) -> (r: Self)
        ensures
            r.i8042 == i8042,
    {
        PortIODeviceManager { i8042 }
    }

    /// Asks the host to route the interrupt lines of the serial ports and of the keyboard
    /// into the guest.
    pub fn register_devices(&mut self, vm: &mut Vm)
        ensures
            *final(self) == *old(self),
            final(vm).actions@ == old(vm).actions@ + legacy_irq_actions(),
            final(vm).guest_memory == old(vm).guest_memory,
            final(vm).resource_allocator == old(vm).resource_allocator,
            final(vm).mmio_bus == old(vm).mmio_bus,
    {
        vm.register_irq(COM_EVT_1_3_GSI);
        vm.register_irq(COM_EVT_2_4_GSI);
        vm.register_irq(KBD_EVT_GSI);
        proof {
            assert(vm.actions@ =~= old(vm).actions@ + legacy_irq_actions());
        }
    }
}

} // verus!
