use mlx9061x::register_access::{mlx90614, mlx90615};
use mlx9061x::transfer::{
    byte_reply, word_reply, write_reply, ByteRead, Command, WordRead, WordWrite,
};
use mlx9061x::Error;

#[test]
fn word_write_sends_register_then_low_then_high() {
    let write = WordWrite { address: 0x5B, register: 0x10, value: 0x1234 };
    assert_eq!(write.bytes(), [0x10, 0x34, 0x12]);
    let write = WordWrite { address: 0x5B, register: 0x2E, value: 0x005C };
    assert_eq!(write.bytes(), [0x2E, 0x5C, 0x00]);
    let write = WordWrite { address: 0x5B, register: 0xFF, value: 0xFF00 };
    assert_eq!(write.bytes(), [0xFF, 0x00, 0xFF]);
}

#[test]
fn command_sends_the_command_byte_alone() {
    let command = Command { address: 0x5A, command: 0xC6 };
    assert_eq!(command.bytes(), [0xC6]);
}

#[test]
fn reads_send_the_register_pointer() {
    assert_eq!(WordRead { address: 0x5A, register: 0x27 }.bytes(), [0x27]);
    assert_eq!(ByteRead { address: 0x5A, register: 0x06 }.bytes(), [0x06]);
}

#[test]
fn word_reply_puts_the_first_byte_low() {
    assert_eq!(word_reply::<()>(Ok([0x34, 0x12])).unwrap(), 0x1234);
    assert_eq!(word_reply::<()>(Ok([0x00, 0x00])).unwrap(), 0);
    assert_eq!(word_reply::<()>(Ok([0xFF, 0x00])).unwrap(), 0x00FF);
    assert_eq!(word_reply::<()>(Ok([0x00, 0xFF])).unwrap(), 0xFF00);
    assert_eq!(word_reply::<()>(Ok([0xFF, 0xFF])).unwrap(), 0xFFFF);
}

#[test]
fn word_reply_hands_on_the_bus_error() {
    assert!(matches!(word_reply(Err("nack")), Err(Error::BusError("nack"))));
}

#[test]
fn byte_reply_is_the_byte_or_the_bus_error() {
    assert_eq!(byte_reply::<()>(Ok([0xA7])).unwrap(), 0xA7);
    assert!(matches!(byte_reply(Err(7u32)), Err(Error::BusError(7))));
}

#[test]
fn write_reply_is_nothing_or_the_bus_error() {
    assert!(matches!(write_reply::<u8>(Ok(())), Ok(())));
    assert!(matches!(write_reply(Err(3u8)), Err(Error::BusError(3))));
}

#[test]
fn written_word_reads_back() {
    for value in [0u16, 1, 0x00FF, 0x0100, 0x1234, 0x7FFF, 0x8000, 0xFFFF] {
        let sent = WordWrite { address: 0x10, register: 0x20, value }.bytes();
        assert_eq!(word_reply::<()>(Ok([sent[1], sent[2]])).unwrap(), value);
    }
}

#[test]
fn mlx90615_locations_combine_opcode_and_cell() {
    assert_eq!(mlx90615::RAW_IR, mlx90615::RAM_COMMAND | 0x05);
    assert_eq!(mlx90615::TA, mlx90615::RAM_COMMAND | 0x06);
    assert_eq!(mlx90615::TOBJ, mlx90615::RAM_COMMAND | 0x07);
    assert_eq!(mlx90615::ADDRESS, mlx90615::EEPROM_COMMAND);
    assert_eq!(mlx90615::SLEEP_COMMAND, 0xC6);
    assert_ne!(mlx90615::ADDRESS, mlx90615::DEV_ADDR);
}

#[test]
fn mlx90614_locations_combine_opcode_and_cell() {
    assert_eq!(mlx90614::RAW_IR1, 0x04);
    assert_eq!(mlx90614::RAW_IR2, 0x05);
    assert_eq!(mlx90614::TA, 0x06);
    assert_eq!(mlx90614::TOBJ1, 0x07);
    assert_eq!(mlx90614::TOBJ2, 0x08);
    assert_eq!(mlx90614::ADDRESS, mlx90614::EEPROM_COMMAND | 0x0E);
    assert_eq!(mlx90614::SLEEP_COMMAND, 0xFF);
    assert_ne!(mlx90614::ADDRESS, mlx90614::DEV_ADDR);
}
