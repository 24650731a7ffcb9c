use gb_cpu::registers::{Register16, Register8, Registers};

#[test]
fn register_test_register8_write() {
    let mut registers = Registers::default();
    registers.write(Register8::A, 8);

    assert_eq!(registers.a, 8, "Failed to write to register A");
}

#[test]
fn register_test_register8_fetch() {
    let mut registers = Registers::default();
    registers.a = 8;

    let byte = registers.fetch(Register8::A);
    assert_eq!(byte, 8, "Failed to fetch the proper value from register A");
}

#[test]
fn register_test_split_register_write() {
    let mut registers = Registers::default();
    registers.write(Register16::AF, 0xA445); // A = 0xA4 F = 0x45

    assert_eq!(
        registers.a, 0xA4,
        "Failed to write to register A, A = 0x{:02X}",
        registers.a
    );

    assert_eq!(
        registers.f, 0x45,
        "Failed to write to register F, F = 0x{:02X}",
        registers.f
    );
}

#[test]
fn register_test_split_register_fetch() {
    let mut registers = Registers::default();
    registers.a = 0xA4;
    registers.f = 0x45;

    let wide = registers.fetch(Register16::AF);
    assert_eq!(
        wide, 0xA445,
        "Failed to fetch the proper value from register AF"
    );
}

#[test]
fn register_test_register16_write() {
    let mut registers = Registers::default();
    registers.write(Register16::SP, 0xA445);
    assert_eq!(
        registers.sp, 0xA445,
        "Failed to fetch the proper value from register SP"
    );
}

#[test]
fn register_test_register16_fetch() {
    let mut registers = Registers::default();
    registers.sp = 0xA445;

    let wide = registers.fetch(Register16::SP);
    assert_eq!(
        wide, 0xA445,
        "Failed to fetch the proper value from register SP"
    );
}
