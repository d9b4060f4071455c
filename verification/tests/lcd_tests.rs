use rustgirl::cpu::Cpu;
use rustgirl::lcd::{
    read_stat_address, screen_mode_is_set, screen_mode_set, screen_mode_val, stat_bit,
    stat_is_set, write_stat_address, ScreenMode, LCDC, STAT,
};

fn powered() -> Cpu {
    let mut cpu = Cpu::new();
    cpu.memory[0xFF40] = 0x91;
    cpu
}

#[test]
fn lcdc_tests_the_power_bit() {
    let mut cpu = powered();
    assert!(LCDC::Power.is_set(&mut cpu));
    assert!(LCDC::BGEnable.is_set(&mut cpu));
    cpu.memory[0xFF40] = 0x01;
    assert!(!LCDC::Power.is_set(&mut cpu));
    assert!(!LCDC::BGEnable.is_set(&mut cpu));
}

#[test]
fn stat_reads_bit_seven_as_one() {
    let mut cpu = powered();
    cpu.memory[0xFF41] = 0x05;
    assert_eq!(read_stat_address(&mut cpu), 0x85);
}

#[test]
fn stat_hides_its_low_bits_while_the_lcd_is_off() {
    let mut cpu = Cpu::new();
    cpu.memory[0xFF41] = 0x47;
    assert_eq!(read_stat_address(&mut cpu), 0xC0);
    assert!(screen_mode_is_set(ScreenMode::HBlank, &mut cpu));
    assert!(!stat_is_set(STAT::LYLYCSignal, &mut cpu));
}

#[test]
fn stat_writes_keep_the_read_only_bits() {
    let mut cpu = powered();
    cpu.memory[0xFF41] = 0x06;
    write_stat_address(0x79, &mut cpu);
    assert_eq!(cpu.memory[0xFF41], 0x7E);
}

#[test]
fn selected_mode_reads_back_with_the_lcd_on() {
    for mode in [
        ScreenMode::HBlank,
        ScreenMode::VBlank,
        ScreenMode::Searching,
        ScreenMode::Transferring,
    ] {
        let mut cpu = powered();
        cpu.memory[0xFF41] = 0x44;
        screen_mode_set(mode, &mut cpu);
        assert!(screen_mode_is_set(mode, &mut cpu));
        assert_eq!(cpu.memory[0xFF41], 0xC4 | screen_mode_val(mode));
        for other in [
            ScreenMode::HBlank,
            ScreenMode::VBlank,
            ScreenMode::Searching,
            ScreenMode::Transferring,
        ] {
            assert_eq!(screen_mode_is_set(other, &mut cpu), other == mode);
        }
    }
}

#[test]
fn selected_mode_reads_as_hblank_with_the_lcd_off() {
    let mut cpu = Cpu::new();
    screen_mode_set(ScreenMode::VBlank, &mut cpu);
    assert_eq!(cpu.memory[0xFF41], 0x81);
    assert!(!screen_mode_is_set(ScreenMode::VBlank, &mut cpu));
    assert!(screen_mode_is_set(ScreenMode::HBlank, &mut cpu));
}

#[test]
fn stat_fields() {
    assert_eq!(stat_bit(STAT::LYLYCCheck), 0x40);
    assert_eq!(stat_bit(STAT::Mode2OAMCheck), 0x20);
    assert_eq!(stat_bit(STAT::Mode1VBlankCheck), 0x10);
    assert_eq!(stat_bit(STAT::Mode0HBlankCheck), 0x08);
    assert_eq!(stat_bit(STAT::LYLYCSignal), 0x04);
    assert_eq!(stat_bit(STAT::SM(ScreenMode::VBlank)), 0x03);
    let mut cpu = powered();
    cpu.memory[0xFF41] = 0x44;
    assert!(stat_is_set(STAT::LYLYCCheck, &mut cpu));
    assert!(stat_is_set(STAT::LYLYCSignal, &mut cpu));
    assert!(!stat_is_set(STAT::Mode2OAMCheck, &mut cpu));
}

#[test]
fn screen_mode_numbers() {
    assert_eq!(screen_mode_val(ScreenMode::HBlank), 0);
    assert_eq!(screen_mode_val(ScreenMode::VBlank), 1);
    assert_eq!(screen_mode_val(ScreenMode::Searching), 2);
    assert_eq!(screen_mode_val(ScreenMode::Transferring), 3);
}

#[test]
fn screen_mode_methods_always_use_mode_zero() {
    assert_eq!(ScreenMode::Transferring.val(), 0);
    assert_eq!(ScreenMode::VBlank.stat_mask(), 0x03);
    let mut cpu = powered();
    cpu.memory[0xFF41] = 0x03;
    ScreenMode::VBlank.set(&mut cpu);
    assert_eq!(cpu.memory[0xFF41], 0x80);
    assert!(ScreenMode::Transferring.is_set(&mut cpu));
}
