//! An i8042 PS/2 controller that emulates just enough to shut the machine down.
//!
//! The controller raises two events: one that resets the processor and one that
//! interrupts it for the keyboard. Both are counters that the host empties.

use vstd::prelude::*;

verus! {

/// Largest count that an event counter can hold.
pub const EVENT_MAX: u64 = 0xffff_ffff_ffff_fffe;

/// Why an event counter could not be written or read.
#[derive(Clone, Copy, Debug, PartialEq, Eq, Structural)]
pub enum EventError {
    /// The count would grow beyond what the counter can hold, or there is nothing to read.
    WouldBlock,
}

/// A counter of raised events. Raising adds to the count; whoever waits for the event
/// takes the count and leaves zero.
#[derive(Clone, Copy, Debug, PartialEq, Eq, Structural)]
pub struct EventCounter {
    /// Events raised and not taken.
    pub count: u64,
}

impl EventCounter {
    /// A counter on which nothing was raised.
    pub fn new() -> (e: Self)
        ensures
            e.count == 0,
    {
        EventCounter { count: 0 }
    }

    /// Adds `v` to the count, unless the counter cannot hold the sum.
    pub fn write(&mut self, v: u64) -> (r: Result<(), EventError>)
        ensures
            r is Ok <==> old(self).count + v <= EVENT_MAX,
            r is Ok ==> final(self).count == old(self).count + v,
            r is Err ==> final(self).count == old(self).count,
    {
        if v > EVENT_MAX || self.count > EVENT_MAX - v {
            return Err(EventError::WouldBlock);
        }
        self.count = self.count + v;
        Ok(())
    }

    /// Takes the count, unless it is zero.
    pub fn read(&mut self) -> (r: Result<u64, EventError>)
        ensures
            r is Ok <==> old(self).count > 0,
            r matches Ok(v) ==> v == old(self).count && final(self).count == 0,
            r is Err ==> final(self).count == old(self).count,
    {
        if self.count == 0 {
            return Err(EventError::WouldBlock);
        }
        let v = self.count;
        self.count = 0;
        Ok(v)
    }
}

/// Errors of the i8042 device.
#[derive(Clone, Copy, Debug, PartialEq, Eq, Structural)]
pub enum I8042Error {
    /// The internal buffer is full.
    InternalBufferFull,
    /// The guest driver has disabled the keyboard interrupt.
    KbdInterruptDisabled,
    /// The keyboard interrupt could not be raised.
    KbdInterruptFailure(EventError),
}

/// Counters of what the device has done.
#[derive(Clone, Copy, Debug, PartialEq, Eq, Structural)]
pub struct I8042DeviceMetrics {
    /// Errors while using the device.
    pub error_count: u64,
    /// Reads that the device did not serve.
    pub missed_read_count: u64,
    /// Writes that the device did not serve.
    pub missed_write_count: u64,
    /// Bytes read from the device.
    pub read_count: u64,
    /// Resets that the device has asked for.
    pub reset_count: u64,
    /// Bytes written to the device.
    pub write_count: u64,
}

impl I8042DeviceMetrics {
    /// Counters that are all zero.
    pub fn new() -> (m: Self)
        ensures
            m == (I8042DeviceMetrics {
                error_count: 0,
                missed_read_count: 0,
                missed_write_count: 0,
                read_count: 0,
                reset_count: 0,
                write_count: 0,
            }),
    {
        I8042DeviceMetrics {
            error_count: 0,
            missed_read_count: 0,
            missed_write_count: 0,
            read_count: 0,
            reset_count: 0,
            write_count: 0,
        }
    }
}

/// Offset of the status port (port 0x64).
pub const OFS_STATUS: u64 = 4;

/// Offset of the data port (port 0x60).
pub const OFS_DATA: u64 = 0;

/// Command: read the control register.
pub const CMD_READ_CTR: u8 = 0x20;

/// Command: write the control register.
pub const CMD_WRITE_CTR: u8 = 0x60;

/// Command: read the output port.
pub const CMD_READ_OUTP: u8 = 0xD0;

/// Command: write the output port.
pub const CMD_WRITE_OUTP: u8 = 0xD1;

/// Command: reset the processor.
pub const CMD_RESET_CPU: u8 = 0xFE;

/// Status bit: data is available at the data port.
pub const SB_OUT_DATA_AVAIL: u8 = 0x01;

/// Status bit: the controller expects the parameter of a command at the data port.
pub const SB_I8042_CMD_DATA: u8 = 0x08;

/// Status bit: the keyboard is enabled.
pub const SB_KBD_ENABLED: u8 = 0x10;

/// Control bit: the keyboard interrupt is enabled.
pub const CB_KBD_INT: u8 = 0x01;

/// Control bit: the self test has passed.
pub const CB_POST_OK: u8 = 0x04;

/// Scan code of the control key.
pub const KEY_CTRL: u16 = 0x0014;

/// Scan code of the alt key.
pub const KEY_ALT: u16 = 0x0011;

/// Scan code of the delete key.
pub const KEY_DEL: u16 = 0xE071;

/// Bytes that the internal buffer holds.
pub const BUF_SIZE: usize = 16;

/// Byte with which the keyboard acknowledges a command.
pub const KBD_ACK: u8 = 0xFA;

/// The i8042 controller.
#[derive(Debug)]
pub struct I8042Device {
    /// Raised when the guest asks for a reset of the processor.
    pub reset_evt: EventCounter,
    /// Raised for the keyboard interrupt.
    pub kbd_interrupt_evt: EventCounter,
    /// The status register.
    pub status: u8,
    /// The control register.
    pub control: u8,
    /// The output port.
    pub outp: u8,
    /// The last command written to the status port.
    pub cmd: u8,
    /// The bytes that wait to be read at the data port, oldest first.
    pub buf: Vec<u8>,
    /// Counters of what the device has done.
    pub metrics: I8042DeviceMetrics,
}

/// The controller as a mathematical value.
pub struct I8042State {
    pub reset_evt: u64,
    pub kbd_interrupt_evt: u64,
    pub status: u8,
    pub control: u8,
    pub outp: u8,
    pub cmd: u8,
    pub buf: Seq<u8>,
    pub metrics: I8042DeviceMetrics,
}

/// `n + by`, starting again from zero behind the largest value.
pub open spec fn counted(n: u64, by: u64) -> u64 {
    ((n + by) % 0x1_0000_0000_0000_0000) as u64
}

impl I8042State {
    /// The state after a byte was offered to the buffer: data is available; the byte is in
    /// the buffer if there was room.
    pub open spec fn pushed(self, byte: u8) -> I8042State {
        I8042State {
            status: self.status | SB_OUT_DATA_AVAIL,
            buf: if self.buf.len() < BUF_SIZE {
                self.buf.push(byte)
            } else {
                self.buf
            },
            ..self
        }
    }

    /// The state after the oldest byte was taken from the buffer, which is not empty.
    pub open spec fn popped(self) -> I8042State {
        I8042State {
            status: if self.buf.len() == 1 {
                self.status & !SB_OUT_DATA_AVAIL
            } else {
                self.status
            },
            buf: self.buf.drop_first(),
            ..self
        }
    }

    /// The state after the buffer was emptied.
    pub open spec fn flushed(self) -> I8042State {
        I8042State { status: self.status & !SB_OUT_DATA_AVAIL, buf: Seq::empty(), ..self }
    }

    /// Whether the keyboard interrupt is enabled.
    pub open spec fn kbd_interrupt_enabled(self) -> bool {
        self.control & CB_KBD_INT != 0
    }

    /// The state after the keyboard interrupt was asked for: it is raised if it is
    /// enabled and its counter has room.
    pub open spec fn interrupted(self) -> I8042State {
        if self.kbd_interrupt_enabled() && self.kbd_interrupt_evt + 1 <= EVENT_MAX {
            I8042State { kbd_interrupt_evt: (self.kbd_interrupt_evt + 1) as u64, ..self }
        } else {
            self
        }
    }

    /// What asking for the keyboard interrupt returns.
    pub open spec fn interrupt_result(self) -> Result<(), I8042Error> {
        if !self.kbd_interrupt_enabled() {
            Err(I8042Error::KbdInterruptDisabled)
        } else if self.kbd_interrupt_evt + 1 > EVENT_MAX {
            Err(I8042Error::KbdInterruptFailure(EventError::WouldBlock))
        } else {
            Ok(())
        }
    }

    /// The state after the bytes of `key` were offered to the buffer and the keyboard
    /// interrupt was asked for. A key of two bytes is only taken if both have room.
    pub open spec fn keyed(self, key: u16) -> I8042State {
        if key & 0xff00 != 0 {
            if BUF_SIZE - self.buf.len() < 2 {
                self
            } else {
                self.pushed((key >> 8) as u8).pushed((key & 0xff) as u8).interrupted()
            }
        } else if self.buf.len() < BUF_SIZE {
            self.pushed((key & 0xff) as u8).interrupted()
        } else {
            self.pushed((key & 0xff) as u8)
        }
    }

    /// What offering `key` returns: the buffer may be full, and the interrupt may fail; an
    /// interrupt that the guest has disabled is no failure.
    pub open spec fn key_result(self, key: u16) -> Result<(), I8042Error> {
        if key & 0xff00 != 0 && BUF_SIZE - self.buf.len() < 2 {
            Err(I8042Error::InternalBufferFull)
        } else if key & 0xff00 == 0 && self.buf.len() >= BUF_SIZE {
            Err(I8042Error::InternalBufferFull)
        } else if self.kbd_interrupt_enabled() && self.kbd_interrupt_evt + 1 > EVENT_MAX {
            Err(I8042Error::KbdInterruptFailure(EventError::WouldBlock))
        } else {
            Ok(())
        }
    }

    /// This state with other counters.
    pub open spec fn with_metrics(self, metrics: I8042DeviceMetrics) -> I8042State {
        I8042State { metrics, ..self }
    }

    /// The state after the guest has read at `offset`, and the byte that it has read, if
    /// the device has served the read. Only reads of one byte at the status port or the
    /// data port are served. The status port gives the status register. The data port
    /// gives the oldest byte of the buffer, or 0 if there is none; if more bytes wait,
    /// the keyboard interrupt is asked for again.
    pub open spec fn read(self, offset: u64, len: nat) -> (I8042State, Option<u8>) {
        if len != 1 || (offset != OFS_STATUS && offset != OFS_DATA) {
            (
                self.with_metrics(
                    I8042DeviceMetrics {
                        missed_read_count: counted(self.metrics.missed_read_count, 1),
                        ..self.metrics
                    },
                ),
                None,
            )
        } else {
            let served = I8042DeviceMetrics {
                read_count: counted(self.metrics.read_count, 1),
                ..self.metrics
            };
            if offset == OFS_STATUS {
                (self.with_metrics(served), Some(self.status))
            } else if self.buf.len() == 0 {
                (
                    (if self.status & SB_OUT_DATA_AVAIL != 0 {
                        self.interrupted()
                    } else {
                        self
                    }).with_metrics(served),
                    Some(0u8),
                )
            } else {
                let next = self.popped();
                (
                    (if next.status & SB_OUT_DATA_AVAIL != 0 {
                        next.interrupted()
                    } else {
                        next
                    }).with_metrics(served),
                    Some(self.buf[0]),
                )
            }
        }
    }

    /// The state after the guest has written `data` at `offset`. Only writes of one byte
    /// are served: a command at the status port, or at the data port the parameter of the
    /// command that expects one, or else a command for the keyboard, which the keyboard
    /// acknowledges.
    pub open spec fn written(self, offset: u64, data: Seq<u8>) -> I8042State {
        let missed = self.with_metrics(
            I8042DeviceMetrics {
                missed_write_count: counted(self.metrics.missed_write_count, 1),
                ..self.metrics
            },
        );
        if data.len() != 1 {
            missed
        } else {
            let byte = data[0];
            let served = I8042DeviceMetrics {
                write_count: counted(self.metrics.write_count, 1),
                ..self.metrics
            };
            if offset == OFS_STATUS && byte == CMD_RESET_CPU {
                if self.reset_evt + 1 <= EVENT_MAX {
                    I8042State {
                        reset_evt: (self.reset_evt + 1) as u64,
                        metrics: I8042DeviceMetrics {
                            reset_count: counted(self.metrics.reset_count, 1),
                            ..served
                        },
                        ..self
                    }
                } else {
                    self.with_metrics(
                        I8042DeviceMetrics {
                            error_count: counted(self.metrics.error_count, 1),
                            reset_count: counted(self.metrics.reset_count, 1),
                            ..served
                        },
                    )
                }
            } else if offset == OFS_STATUS && byte == CMD_READ_CTR {
                self.flushed().pushed(self.control).with_metrics(served)
            } else if offset == OFS_STATUS && byte == CMD_WRITE_CTR {
                let flushed = self.flushed();
                I8042State {
                    status: flushed.status | SB_I8042_CMD_DATA,
                    cmd: byte,
                    metrics: served,
                    ..flushed
                }
            } else if offset == OFS_STATUS && byte == CMD_READ_OUTP {
                self.flushed().pushed(self.outp).with_metrics(served)
            } else if offset == OFS_STATUS && byte == CMD_WRITE_OUTP {
                I8042State {
                    status: self.status | SB_I8042_CMD_DATA,
                    cmd: byte,
                    metrics: served,
                    ..self
                }
            } else if offset == OFS_DATA && self.status & SB_I8042_CMD_DATA != 0 {
                I8042State {
                    control: if self.cmd == CMD_WRITE_CTR {
                        byte
                    } else {
                        self.control
                    },
                    outp: if self.cmd == CMD_WRITE_OUTP {
                        byte
                    } else {
                        self.outp
                    },
                    status: self.status & !SB_I8042_CMD_DATA,
                    metrics: served,
                    ..self
                }
            } else if offset == OFS_DATA {
                self.flushed().pushed(KBD_ACK).interrupted().with_metrics(served)
            } else {
                missed
            }
        }
    }
}

impl View for I8042Device {
    type V = I8042State;

    open spec fn view(&self) -> I8042State {
        I8042State {
            reset_evt: self.reset_evt.count,
            kbd_interrupt_evt: self.kbd_interrupt_evt.count,
            status: self.status,
            control: self.control,
            outp: self.outp,
            cmd: self.cmd,
            buf: self.buf@,
            metrics: self.metrics,
        }
    }
}

impl I8042Device {
    /// Whether the buffer holds no more than it may, and the status register says that
    /// data is available exactly when the buffer holds a byte.
    pub open spec fn wf(&self) -> bool {
        &&& self.buf.len() <= BUF_SIZE
        &&& (self.status & SB_OUT_DATA_AVAIL != 0) <==> self.buf.len() > 0
    }

    /// The state of a controller that was just made, with the keyboard interrupt not
    /// raised.
    pub open spec fn spec_new(reset_evt: EventCounter) -> I8042State {
        Self::initial(reset_evt, EventCounter { count: 0 })
    }

    /// The state of a controller that was just made: the keyboard and its interrupt are
    /// enabled, and the buffer is empty.
    pub open spec fn initial(reset_evt: EventCounter, kbd_interrupt_evt: EventCounter) -> I8042State {
        I8042State {
            reset_evt: reset_evt.count,
            kbd_interrupt_evt: kbd_interrupt_evt.count,
            status: SB_KBD_ENABLED,
            control: CB_POST_OK | CB_KBD_INT,
            outp: 0,
            cmd: 0,
            buf: Seq::empty(),
            metrics: I8042DeviceMetrics {
                error_count: 0,
                missed_read_count: 0,
                missed_write_count: 0,
                read_count: 0,
                reset_count: 0,
                write_count: 0,
            },
        }
    }

    /// A controller that raises the given events, with the keyboard enabled, its interrupt
    /// enabled, and nothing in the buffer.
    pub fn new(reset_evt: EventCounter, kbd_interrupt_evt: EventCounter) -> (dev: Self)
        ensures
            dev.wf(),
            dev@ == Self::initial(reset_evt, kbd_interrupt_evt),
    {
        proof {
            assert(SB_KBD_ENABLED & SB_OUT_DATA_AVAIL == 0) by (bit_vector)
                requires
                    SB_KBD_ENABLED == 0x10,
                    SB_OUT_DATA_AVAIL == 0x01,
            ;
        }
        I8042Device {
            reset_evt,
            kbd_interrupt_evt,
            control: CB_POST_OK | CB_KBD_INT,
            cmd: 0,
            outp: 0,
            status: SB_KBD_ENABLED,
            buf: Vec::new(),
            metrics: I8042DeviceMetrics::new(),
        }
    }

    /// Number of bytes in the buffer.
    pub fn buf_len(&self) -> (n: usize)
        ensures
            n == self.buf.len(),
    {
        self.buf.len()
    }

    /// Offers `byte` to the buffer. Data is marked available even if the buffer is full.
    pub fn push_byte(&mut self, byte: u8) -> (r: Result<(), I8042Error>)
        requires
            old(self).wf(),
        ensures
            final(self).wf(),
            final(self)@ == old(self)@.pushed(byte),
            r is Ok <==> old(self).buf.len() < BUF_SIZE,
            r is Err ==> r == Err::<(), I8042Error>(I8042Error::InternalBufferFull),
    {
        proof {
            let status = self.status;
            assert((status | SB_OUT_DATA_AVAIL) & SB_OUT_DATA_AVAIL != 0) by (bit_vector)
                requires
                    SB_OUT_DATA_AVAIL == 0x01,
            ;
        }
        self.status |= SB_OUT_DATA_AVAIL;
        if self.buf_len() == BUF_SIZE {
            return Err(I8042Error::InternalBufferFull);
        }
        self.buf.push(byte);
        Ok(())
    }

    /// Takes the oldest byte from the buffer. When the last byte is taken, data is no
    /// longer marked available.
    pub fn pop_byte(&mut self) -> (r: Option<u8>)
        requires
            old(self).wf(),
        ensures
            final(self).wf(),
            match r {
                Some(byte) => {
                    &&& old(self).buf.len() > 0
                    &&& byte == old(self).buf[0]
                    &&& final(self)@ == old(self)@.popped()
                },
                None => old(self).buf.len() == 0 && final(self)@ == old(self)@,
            },
    {
        if self.buf_len() == 0 {
            return None;
        }
        let res = self.buf.remove(0);
        if self.buf_len() == 0 {
            proof {
                let status = self.status;
                assert((status & !SB_OUT_DATA_AVAIL) & SB_OUT_DATA_AVAIL == 0) by (bit_vector);
            }
            self.status &= !SB_OUT_DATA_AVAIL;
        }
        proof {
            assert(self.buf@ =~= old(self).buf@.drop_first());
        }
        Some(res)
    }

    /// Empties the buffer.
    pub fn flush_buf(&mut self)
        ensures
            final(self).wf(),
            final(self)@ == old(self)@.flushed(),
    {
        self.buf.clear();
        proof {
            let status = self.status;
            assert((status & !SB_OUT_DATA_AVAIL) & SB_OUT_DATA_AVAIL == 0) by (bit_vector);
        }
        self.status &= !SB_OUT_DATA_AVAIL;
    }

    /// Raises the keyboard interrupt, unless the guest driver has disabled it or its
    /// counter is full.
    pub fn trigger_kbd_interrupt(&mut self) -> (r: Result<(), I8042Error>)
        ensures
            final(self).wf() == old(self).wf(),
            final(self)@ == old(self)@.interrupted(),
            r == old(self)@.interrupt_result(),
    {
        if (self.control & CB_KBD_INT) == 0 {
            return Err(I8042Error::KbdInterruptDisabled);
        }
        match self.kbd_interrupt_evt.write(1) {
            Ok(()) => Ok(()),
            Err(err) => Err(I8042Error::KbdInterruptFailure(err)),
        }
    }

    /// Offers the bytes of `key`, high byte first if it has one, to the buffer, and raises
    /// the keyboard interrupt. A key of two bytes needs room for both.
    pub fn trigger_key(&mut self, key: u16) -> (r: Result<(), I8042Error>)
        requires
            old(self).wf(),
        ensures
            final(self).wf(),
            final(self)@ == old(self)@.keyed(key),
            r == old(self)@.key_result(key),
    {
        if key & 0xff00 != 0 {
            // An extended key takes two bytes: both must have room.
            if BUF_SIZE - self.buf_len() < 2 {
                return Err(I8042Error::InternalBufferFull);
            }
            self.push_byte((key >> 8) as u8)?;
        }
        self.push_byte((key & 0xff) as u8)?;
        match self.trigger_kbd_interrupt() {
            Ok(()) => Ok(()),
            Err(I8042Error::KbdInterruptDisabled) => Ok(()),
            Err(err) => Err(err),
        }
    }

    /// Offers the keys control, alt and delete, which take four bytes. Without room for
    /// all four nothing is offered.
    pub fn trigger_ctrl_alt_del(&mut self) -> (r: Result<(), I8042Error>)
        requires
            old(self).wf(),
        ensures
            final(self).wf(),
            BUF_SIZE - old(self).buf.len() < 4 ==> r == Err::<(), I8042Error>(
                I8042Error::InternalBufferFull,
            ) && final(self)@ == old(self)@,
            BUF_SIZE - old(self).buf.len() >= 4 ==> {
                let first = old(self)@;
                let second = first.keyed(KEY_CTRL);
                let third = second.keyed(KEY_ALT);
                if first.key_result(KEY_CTRL) is Err {
                    r == first.key_result(KEY_CTRL) && final(self)@ == second
                } else if second.key_result(KEY_ALT) is Err {
                    r == second.key_result(KEY_ALT) && final(self)@ == third
                } else {
                    r == third.key_result(KEY_DEL) && final(self)@ == third.keyed(KEY_DEL)
                }
            },
    {
        // The sequence is four bytes in total: one extended key and two plain keys.
        if BUF_SIZE - self.buf_len() < 4 {
            return Err(I8042Error::InternalBufferFull);
        }
        self.trigger_key(KEY_CTRL)?;
        self.trigger_key(KEY_ALT)?;
        self.trigger_key(KEY_DEL)?;
        Ok(())
    }

    /// Serves a read of the guest at `offset` into `data`: see [`I8042State::read`]. A
    /// read that is not served leaves `data` as it is.
    pub fn bus_read(&mut self, offset: u64, data: &mut Vec<u8>)
        requires
            old(self).wf(),
        ensures
            final(self).wf(),
            final(self)@ == old(self)@.read(offset, old(data).len() as nat).0,
            final(data)@ == (match old(self)@.read(offset, old(data).len() as nat).1 {
                Some(byte) => seq![byte],
                None => old(data)@,
            }),
    {
        // All ports are one byte wide.
        if data.len() != 1 {
            self.metrics.missed_read_count = self.metrics.missed_read_count.wrapping_add(1);
            return;
        }
        if offset == OFS_STATUS {
            data.set(0, self.status);
        } else if offset == OFS_DATA {
            // The guest gets the oldest byte of the buffer, or 0 if there is none.
            let byte = match self.pop_byte() {
                Some(byte) => byte,
                None => 0,
            };
            data.set(0, byte);
            // If more bytes wait, the guest has to be told to read again.
            if (self.status & SB_OUT_DATA_AVAIL) != 0 {
                let _ = self.trigger_kbd_interrupt();
            }
        } else {
            self.metrics.missed_read_count = self.metrics.missed_read_count.wrapping_add(1);
            return;
        }
        self.metrics.read_count = self.metrics.read_count.wrapping_add(1);
        proof {
            assert(data@ =~= seq![data@[0]]);
        }
    }

    /// Serves a write of the guest of `data` at `offset`: see [`I8042State::written`].
    pub fn bus_write(&mut self, offset: u64, data: &[u8])
        requires
            old(self).wf(),
        ensures
            final(self).wf(),
            final(self)@ == old(self)@.written(offset, data@),
    {
        // All ports are one byte wide.
        if data.len() != 1 {
            self.metrics.missed_write_count = self.metrics.missed_write_count.wrapping_add(1);
            return;
        }
        let byte = data[0];
        proof {
            // the bit that waits for the parameter of a command is not the bit for data
            assert forall|status: u8|
                (#[trigger] (status | SB_I8042_CMD_DATA)) & SB_OUT_DATA_AVAIL == status
                    & SB_OUT_DATA_AVAIL by {
                assert((status | SB_I8042_CMD_DATA) & SB_OUT_DATA_AVAIL == status
                    & SB_OUT_DATA_AVAIL) by (bit_vector)
                    requires
                        SB_I8042_CMD_DATA == 0x08,
                        SB_OUT_DATA_AVAIL == 0x01,
                ;
            }
            assert forall|status: u8|
                (#[trigger] (status & !SB_I8042_CMD_DATA)) & SB_OUT_DATA_AVAIL == status
                    & SB_OUT_DATA_AVAIL by {
                assert((status & !SB_I8042_CMD_DATA) & SB_OUT_DATA_AVAIL == status
                    & SB_OUT_DATA_AVAIL) by (bit_vector)
                    requires
                        SB_I8042_CMD_DATA == 0x08,
                        SB_OUT_DATA_AVAIL == 0x01,
                ;
            }
        }
        if offset == OFS_STATUS && byte == CMD_RESET_CPU {
            // The guest wants the processor reset: the host is told through the event.
            if self.reset_evt.write(1).is_err() {
                self.metrics.error_count = self.metrics.error_count.wrapping_add(1);
            }
            self.metrics.reset_count = self.metrics.reset_count.wrapping_add(1);
        } else if offset == OFS_STATUS && byte == CMD_READ_CTR {
            // Only the control register shall wait at the data port.
            self.flush_buf();
            let control = self.control;
            let _ = self.push_byte(control);
        } else if offset == OFS_STATUS && byte == CMD_WRITE_CTR {
            // The value of the control register follows at the data port.
            self.flush_buf();
            self.status |= SB_I8042_CMD_DATA;
            self.cmd = byte;
        } else if offset == OFS_STATUS && byte == CMD_READ_OUTP {
            self.flush_buf();
            let outp = self.outp;
            let _ = self.push_byte(outp);
        } else if offset == OFS_STATUS && byte == CMD_WRITE_OUTP {
            // The value of the output port follows at the data port.
            self.status |= SB_I8042_CMD_DATA;
            self.cmd = byte;
        } else if offset == OFS_DATA && (self.status & SB_I8042_CMD_DATA) != 0 {
            // The byte is the parameter of the command that was written before.
            if self.cmd == CMD_WRITE_CTR {
                self.control = byte;
            } else if self.cmd == CMD_WRITE_OUTP {
                self.outp = byte;
            }
            self.status &= !SB_I8042_CMD_DATA;
        } else if offset == OFS_DATA {
            // The byte is a command for the keyboard, which acknowledges whatever it gets.
            self.flush_buf();
            let _ = self.push_byte(KBD_ACK);
            let _ = self.trigger_kbd_interrupt();
        } else {
            self.metrics.missed_write_count = self.metrics.missed_write_count.wrapping_add(1);
            return;
        }
        self.metrics.write_count = self.metrics.write_count.wrapping_add(1);
    }
}

} // verus!
