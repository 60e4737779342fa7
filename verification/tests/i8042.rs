use device_manager::devices::legacy::i8042::{
    EventCounter, I8042Device, I8042Error, BUF_SIZE, CB_KBD_INT, CMD_READ_CTR, CMD_READ_OUTP,
    CMD_RESET_CPU, CMD_WRITE_CTR, CMD_WRITE_OUTP, KEY_ALT, KEY_CTRL, KEY_DEL, OFS_DATA, OFS_STATUS,
    SB_I8042_CMD_DATA, SB_OUT_DATA_AVAIL,
};

fn new_device() -> I8042Device {
    I8042Device::new(EventCounter::new(), EventCounter::new())
}

#[test]
fn test_i8042_read_write_and_event() {
    let mut i8042 = new_device();

    // Check if reading in a 2-length array doesn't have side effects.
    let mut data = vec![1, 2];
    i8042.bus_read(0, &mut data);
    assert_eq!(data, [1, 2]);
    i8042.bus_read(1, &mut data);
    assert_eq!(data, [1, 2]);

    // Check if reset works.
    // Write 1 to the reset event, so that the count is 2 after the reset.
    i8042.reset_evt.write(1).unwrap();
    let mut data = vec![CMD_RESET_CPU];
    i8042.bus_write(OFS_STATUS, &data);
    assert_eq!(i8042.reset_evt.read().unwrap(), 2);

    // Check if reading with offset 1 doesn't have side effects.
    i8042.bus_read(1, &mut data);
    assert_eq!(data[0], CMD_RESET_CPU);

    // Check invalid `write`s.
    let before = i8042.metrics.missed_write_count;
    // offset != 0.
    i8042.bus_write(1, &data);
    // data != CMD_RESET_CPU
    data[0] = CMD_RESET_CPU + 1;
    i8042.bus_write(1, &data);
    // data.len() != 1
    let data = [CMD_RESET_CPU; 2];
    i8042.bus_write(1, &data);
    assert_eq!(i8042.metrics.missed_write_count, before + 3);
}

#[test]
fn test_i8042_commands() {
    let mut i8042 = new_device();
    let mut data = vec![1];

    // Test reading/writing the control register.
    data[0] = CMD_WRITE_CTR;
    i8042.bus_write(OFS_STATUS, &data);
    assert_ne!(i8042.status & SB_I8042_CMD_DATA, 0);
    data[0] = 0x52;
    i8042.bus_write(OFS_DATA, &data);
    data[0] = CMD_READ_CTR;
    i8042.bus_write(OFS_STATUS, &data);
    assert_ne!(i8042.status & SB_OUT_DATA_AVAIL, 0);
    i8042.bus_read(OFS_DATA, &mut data);
    assert_eq!(data[0], 0x52);

    // Test reading/writing the output port.
    data[0] = CMD_WRITE_OUTP;
    i8042.bus_write(OFS_STATUS, &data);
    assert_ne!(i8042.status & SB_I8042_CMD_DATA, 0);
    data[0] = 0x52;
    i8042.bus_write(OFS_DATA, &data);
    data[0] = CMD_READ_OUTP;
    i8042.bus_write(OFS_STATUS, &data);
    assert_ne!(i8042.status & SB_OUT_DATA_AVAIL, 0);
    i8042.bus_read(OFS_DATA, &mut data);
    assert_eq!(data[0], 0x52);

    // Test kbd commands.
    data[0] = 0x52;
    i8042.bus_write(OFS_DATA, &data);
    assert_ne!(i8042.status & SB_OUT_DATA_AVAIL, 0);
    i8042.bus_read(OFS_DATA, &mut data);
    assert_eq!(data[0], 0xFA);
}

#[test]
fn test_i8042_buffer() {
    let mut i8042 = new_device();

    // Test push/pop.
    i8042.push_byte(52).unwrap();
    assert_ne!(i8042.status & SB_OUT_DATA_AVAIL, 0);
    assert_eq!(i8042.pop_byte().unwrap(), 52);
    assert_eq!(i8042.status & SB_OUT_DATA_AVAIL, 0);

    // Test empty buffer pop.
    assert!(i8042.pop_byte().is_none());

    // Test buffer full.
    for i in 0..BUF_SIZE {
        i8042.push_byte(i.try_into().unwrap()).unwrap();
        assert_eq!(i8042.buf_len(), i + 1);
    }
    assert_eq!(i8042.push_byte(0).unwrap_err(), I8042Error::InternalBufferFull);
}

fn expect_key(i8042: &mut I8042Device, key: u16) {
    let mut data = vec![1];

    // The interrupt line should be on.
    i8042.trigger_kbd_interrupt().unwrap();
    assert!(i8042.kbd_interrupt_evt.read().unwrap() > 1);

    // The "data available" flag should be on.
    i8042.bus_read(OFS_STATUS, &mut data);

    let mut key_byte: u8;
    if key & 0xFF00 != 0 {
        // For extended keys, we should be able to read the MSB first.
        key_byte = ((key & 0xFF00) >> 8) as u8;
        i8042.bus_read(OFS_DATA, &mut data);
        assert_eq!(data[0], key_byte);

        // And then do the same for the LSB.

        // The interrupt line should be on.
        i8042.trigger_kbd_interrupt().unwrap();
        assert!(i8042.kbd_interrupt_evt.read().unwrap() > 1);
        // The "data available" flag should be on.
        i8042.bus_read(OFS_STATUS, &mut data);
    }
    key_byte = (key & 0xFF) as u8;
    i8042.bus_read(OFS_DATA, &mut data);
    assert_eq!(data[0], key_byte);
}

#[test]
fn test_i8042_kbd() {
    let mut i8042 = new_device();

    // Test key trigger.
    i8042.trigger_key(KEY_CTRL).unwrap();
    expect_key(&mut i8042, KEY_CTRL);

    // Test extended key trigger.
    i8042.trigger_key(KEY_DEL).unwrap();
    expect_key(&mut i8042, KEY_DEL);

    // Test CTRL+ALT+DEL trigger.
    i8042.trigger_ctrl_alt_del().unwrap();
    expect_key(&mut i8042, KEY_CTRL);
    expect_key(&mut i8042, KEY_ALT);
    expect_key(&mut i8042, KEY_DEL);

    // Almost fill up the buffer, so we can test trigger failures.
    for _i in 0..BUF_SIZE - 1 {
        i8042.push_byte(1).unwrap();
    }

    // Test extended key trigger failure.
    assert_eq!(i8042.buf_len(), BUF_SIZE - 1);
    assert_eq!(i8042.trigger_key(KEY_DEL).unwrap_err(), I8042Error::InternalBufferFull);

    // Test ctrl+alt+del trigger failure.
    i8042.pop_byte().unwrap();
    i8042.pop_byte().unwrap();
    assert_eq!(i8042.buf_len(), BUF_SIZE - 3);
    assert_eq!(i8042.trigger_ctrl_alt_del().unwrap_err(), I8042Error::InternalBufferFull);

    // Test kbd interrupt disable.
    let mut data = vec![1];
    data[0] = CMD_WRITE_CTR;
    i8042.bus_write(OFS_STATUS, &data);
    data[0] = i8042.control & !CB_KBD_INT;
    i8042.bus_write(OFS_DATA, &data);
    i8042.trigger_key(KEY_CTRL).unwrap();
    assert_eq!(i8042.trigger_kbd_interrupt().unwrap_err(), I8042Error::KbdInterruptDisabled)
}
