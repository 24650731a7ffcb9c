use gb_cpu::registers::{Register16, Register8, Registers};

#[test]
fn registers_test_register8_write() {
    let mut registers = Registers::default();
    registers.write(Register8::A, 8);

    assert_eq!(registers.a, 8, "Failed to write to register A");
}

#[test]
fn registers_test_register8_fetch() {
    let mut registers = Registers::default();
    registers.a = 8;

    let byte = registers.fetch(Register8::A);
    assert_eq!(byte, 8, "Failed to fetch the proper value from register A");
}

#[test]
fn test_register8_inc() {
    let mut registers = Registers::default();
    registers.a = 7;
    registers.inc(Register8::A);

    assert_eq!(registers.a, 8, "Failed to write to register A");
}

#[test]
fn test_register8_dec() {
    let mut registers = Registers::default();
    registers.a = 8;
    registers.dec(Register8::A);

    assert_eq!(registers.a, 7, "Failed to write to register A");
}

#[test]
fn registers_test_split_register_write() {
    let mut registers = Registers::default();
    registers.write(Register16::AF, 0xA445); // A = 0xA4 F = 0x45

    assert_eq!(
        registers.a, 0xA4,
        "Failed to write to register A, A = 0x{:02X}",
        registers.a
    );

    assert_eq!(
        registers.f, 0x45,
        "Failed to write to register F, F = 0x{:02X}",
        registers.f
    );
}

#[test]
fn test_split_register_inc() {
    let mut registers = Registers::default();
    registers.write(Register16::AF, 0xA445); // A = 0xA4 F = 0x45
    registers.inc(Register16::AF);

    assert_eq!(
        registers.a, 0xA4,
        "Failed to write to register A, A = 0x{:02X}",
        registers.a
    );

    assert_eq!(
        registers.f, 0x46,
        "Failed to write to register F, F = 0x{:02X}",
        registers.f
    );
}

#[test]
fn test_split_register_dec() {
    let mut registers = Registers::default();
    registers.write(Register16::AF, 0xA445); // A = 0xA4 F = 0x45
    registers.dec(Register16::AF);

    assert_eq!(
        registers.a, 0xA4,
        "Failed to write to register A, A = 0x{:02X}",
        registers.a
    );

    assert_eq!(
        registers.f, 0x44,
        "Failed to write to register F, F = 0x{:02X}",
        registers.f
    );
}

#[test]
fn registers_test_split_register_fetch() {
    let mut registers = Registers::default();
    registers.a = 0xA4;
    registers.f = 0x45;

    let wide = registers.fetch(Register16::AF);
    assert_eq!(
        wide, 0xA445,
        "Failed to fetch the proper value from register AF"
    );
}

#[test]
fn registers_test_register16_write() {
    let mut registers = Registers::default();
    registers.write(Register16::SP, 0xA445);
    assert_eq!(
        registers.sp, 0xA445,
        "Failed to fetch the proper value from register SP"
    );
}

#[test]
fn test_register16_inc() {
    let mut registers = Registers::default();
    registers.write(Register16::SP, 0xA445);
    registers.inc(Register16::SP);

    assert_eq!(
        registers.sp, 0xA446,
        "Failed to fetch the proper value from register SP"
    );
}

#[test]
fn test_register16_dec() {
    let mut registers = Registers::default();
    registers.write(Register16::SP, 0xA445);
    registers.dec(Register16::SP);

    assert_eq!(
        registers.sp, 0xA444,
        "Failed to fetch the proper value from register SP"
    );
}

#[test]
fn registers_test_register16_fetch() {
    let mut registers = Registers::default();
    registers.sp = 0xA445;

    let wide = registers.fetch(Register16::SP);
    assert_eq!(
        wide, 0xA445,
        "Failed to fetch the proper value from register SP"
    );
}
