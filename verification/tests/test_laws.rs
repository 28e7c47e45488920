use rbca_core::cartridge::{checksum_fn, CartMBC1, Cartridge, LOGO};
use rbca_core::cpu::Cpu;
use rbca_core::instructions::{
    add_a_n, ccf, cpl, ei, nop, pop_nn, push_nn, rlc_n, rrc_n, sub_n, swap_n, xor_n,
};
use rbca_core::joypad::{Button, Joypad};
use rbca_core::mmu::Mmu;
use rbca_core::registers::{RegFlag, Registers, Target, VirtTarget};
use rbca_core::timer::Timer;

#[test]
fn law_register_read_after_write_example() {
    let mut r = Registers::new();
    r.set_reg(Target::D, 0x5A);
    r.set_virt_reg(VirtTarget::HL, 0xC0DE);
    assert_eq!(r.get_reg(Target::D), 0x5A);
    assert_eq!(r.get_virt_reg(VirtTarget::HL), 0xC0DE);
    assert_eq!(r.h, 0xC0);
    assert_eq!(r.l, 0xDE);
    r.set_flag(RegFlag::H, true);
    r.set_flag(RegFlag::C, false);
    assert!(r.get_flag(RegFlag::H));
    assert!(!r.get_flag(RegFlag::C));
}

#[test]
fn law_ram_read_after_write_example() {
    let mut mmu = Mmu::new();
    mmu.write_byte(0xC123, 0x42);
    mmu.write_byte(0xFF90, 0x17);
    mmu.write_byte(0xFFFF, 0x1F);
    assert_eq!(mmu.read_byte(0xC123), 0x42);
    assert_eq!(mmu.read_byte(0xFF90), 0x17);
    assert_eq!(mmu.read_byte(0xFFFF), 0x1F);
}

#[test]
fn law_echo_ram_mirror_example() {
    let mut mmu = Mmu::new();
    mmu.write_byte(0xC010, 0x99);
    assert_eq!(mmu.read_byte(0xE010), 0x99);
    mmu.write_byte(0xE010, 0x11);
    assert_eq!(mmu.read_byte(0xE010), 0x99);
    assert_eq!(mmu.read_byte(0xC010), 0x99);
}

#[test]
fn law_word_read_after_write_example() {
    let mut mmu = Mmu::new();
    mmu.write_2_bytes(0xC100, 0xBEEF);
    assert_eq!(mmu.read_byte(0xC100), 0xEF);
    assert_eq!(mmu.read_byte(0xC101), 0xBE);
    assert_eq!(mmu.read_2_bytes(0xC100), 0xBEEF);
}

#[test]
fn law_dma_duration_example() {
    let mut mmu = Mmu::new();
    mmu.write_byte(0xC000, 0x77);
    mmu.write_byte(0xFF46, 0xC0);
    assert_eq!(mmu.oam_dma_remaining_cycles, 640);
    assert_eq!(mmu.ppu.oam[0], 0x77);
    mmu.cycle(639);
    assert_eq!(mmu.read_byte(0xC000), 0xFF);
    mmu.cycle(1);
    assert_eq!(mmu.oam_dma_remaining_cycles, 0);
    assert_eq!(mmu.read_byte(0xC000), 0x77);
}

#[test]
fn law_divider_reset_example() {
    let mut mmu = Mmu::new();
    for _ in 0..3 {
        mmu.cycle(200);
    }
    assert_eq!(mmu.read_byte(0xFF04), 2);
    mmu.write_byte(0xFF04, 0xAB);
    assert_eq!(mmu.read_byte(0xFF04), 0);
}

#[test]
fn law_push_pop_example() {
    let mut cpu = Cpu::new();
    cpu.sp = 0xD000;
    cpu.push_stack(0x1234);
    assert_eq!(cpu.sp, 0xCFFE);
    assert_eq!(cpu.pop_stack(), 0x1234);
    assert_eq!(cpu.sp, 0xD000);
}

#[test]
fn law_push_pop_pair_example() {
    let mut cpu = Cpu::new();
    cpu.sp = 0xD000;
    cpu.regs.set_virt_reg(VirtTarget::BC, 0xABCD);
    push_nn(&mut cpu, VirtTarget::BC);
    cpu.regs.set_virt_reg(VirtTarget::BC, 0x0000);
    pop_nn(&mut cpu, VirtTarget::BC);
    assert_eq!(cpu.regs.get_virt_reg(VirtTarget::BC), 0xABCD);
    assert_eq!(cpu.sp, 0xD000);
}

#[test]
fn law_swap_involution_example() {
    let mut cpu = Cpu::new();
    cpu.regs.set_reg(Target::B, 0x3C);
    swap_n(&mut cpu, Target::B);
    assert_eq!(cpu.regs.get_reg(Target::B), 0xC3);
    swap_n(&mut cpu, Target::B);
    assert_eq!(cpu.regs.get_reg(Target::B), 0x3C);
}

#[test]
fn law_rotate_inverse_example() {
    let mut cpu = Cpu::new();
    cpu.regs.set_reg(Target::E, 0b1000_0110);
    rlc_n(&mut cpu, Target::E);
    assert_eq!(cpu.regs.get_reg(Target::E), 0b0000_1101);
    assert!(cpu.regs.get_flag(RegFlag::C));
    rrc_n(&mut cpu, Target::E);
    assert_eq!(cpu.regs.get_reg(Target::E), 0b1000_0110);
}

#[test]
fn law_cpl_ccf_involution_example() {
    let mut cpu = Cpu::new();
    cpu.regs.set_reg(Target::A, 0x5A);
    cpl(&mut cpu);
    assert_eq!(cpu.regs.get_reg(Target::A), 0xA5);
    cpl(&mut cpu);
    assert_eq!(cpu.regs.get_reg(Target::A), 0x5A);
    cpu.regs.set_flag(RegFlag::C, true);
    ccf(&mut cpu);
    assert!(!cpu.regs.get_flag(RegFlag::C));
    ccf(&mut cpu);
    assert!(cpu.regs.get_flag(RegFlag::C));
}

#[test]
fn law_xor_a_clears_example() {
    let mut cpu = Cpu::new();
    cpu.regs.set_reg(Target::A, 0xF3);
    xor_n(&mut cpu, Target::A);
    assert_eq!(cpu.regs.get_reg(Target::A), 0);
    assert!(cpu.regs.get_flag(RegFlag::Z));
}

#[test]
fn law_add_sub_inverse_example() {
    let mut cpu = Cpu::new();
    cpu.regs.set_reg(Target::A, 0xF0);
    cpu.regs.set_reg(Target::C, 0x20);
    add_a_n(&mut cpu, Target::C);
    assert_eq!(cpu.regs.get_reg(Target::A), 0x10);
    assert!(cpu.regs.get_flag(RegFlag::C));
    sub_n(&mut cpu, Target::C);
    assert_eq!(cpu.regs.get_reg(Target::A), 0xF0);
    assert!(cpu.regs.get_flag(RegFlag::C));
    assert!(cpu.regs.get_flag(RegFlag::N));
}

#[test]
fn law_ei_delay_example() {
    let mut cpu = Cpu::new();
    ei(&mut cpu);
    assert_eq!(cpu.ei_countdown, 2);
    cpu.mmu.write_byte(0x0001, 0x00);
    cpu.cycle(false, false);
    assert!(!cpu.interrupts_enabled);
    cpu.cycle(false, false);
    assert!(cpu.interrupts_enabled);
    nop(&mut cpu);
}

#[test]
fn law_interrupt_vector_example() {
    let mut cpu = Cpu::new();
    cpu.pc = 0x0150;
    cpu.interrupts_enabled = true;
    cpu.mmu.write_byte(0xFFFF, 0b0000_0110);
    cpu.mmu.write_byte(0xFF0F, 0b0000_0100);
    let (cycles, state) = cpu.cycle(false, false);
    assert_eq!(cycles, 20);
    assert_eq!(cpu.pc, 0x0050);
    assert!(!cpu.interrupts_enabled);
    assert_eq!(cpu.mmu.read_byte(0xFF0F) & 0b0001_1111, 0);
    assert_eq!(cpu.pop_stack(), 0x0150);
    let state = state.unwrap();
    assert_eq!(state.instruction_string, "INTERRUPT");
}

#[test]
fn law_button_press_release_example() {
    let mut joypad = Joypad::new();
    let before = joypad.internal_dpad.read_byte();
    joypad.button_down(Button::Down);
    assert_eq!(joypad.internal_dpad.read_byte() & 0b0000_1000, 0);
    joypad.button_up(Button::Down);
    assert_eq!(joypad.internal_dpad.read_byte(), before);
}

fn mbc1_image(rom_code: u8, ram_code: u8, type_code: u8) -> Vec<u8> {
    let size = (32 * 1024) << rom_code;
    let mut data = vec![0u8; size];
    data[0x0104..0x0134].copy_from_slice(&LOGO);
    data[0x0147] = type_code;
    data[0x0148] = rom_code;
    data[0x0149] = ram_code;
    data
}

#[test]
fn law_mbc1_rom_bank_in_range_example() {
    let mut mbc1 = CartMBC1::new(mbc1_image(0x01, 0x00, 0x01));
    for v in 0..=0xFFu8 {
        mbc1.set_rom_bank_number(v);
        assert!(mbc1.get_rom_bank_number() < mbc1.num_rom_banks());
    }
}

#[test]
fn law_mbc1_ram_enable_example() {
    let mut mbc1 = CartMBC1::new(mbc1_image(0x00, 0x02, 0x02));
    mbc1.write_rom(0x1000, 0x1A);
    assert!(mbc1.ram_enable);
    mbc1.write_ram(0xA005, 0x66);
    assert_eq!(mbc1.read_ram(0xA005), 0x66);
    mbc1.write_rom(0x1000, 0x1B);
    assert!(!mbc1.ram_enable);
    assert_eq!(mbc1.read_ram(0xA005), 0xFF);
    mbc1.write_ram(0xA005, 0x01);
    mbc1.write_rom(0x0000, 0x0A);
    assert_eq!(mbc1.read_ram(0xA005), 0x66);
}

#[test]
fn law_checksum_roundtrip_example() {
    let mut data = mbc1_image(0x00, 0x00, 0x01);
    data[0x0134] = b'X';
    data[0x014D] = checksum_fn(&data);
    let mbc1 = CartMBC1::new(data);
    assert!(mbc1.validate_checksum().is_none());
    let mut bad = mbc1_image(0x00, 0x00, 0x01);
    bad[0x014D] = checksum_fn(&bad).wrapping_add(1);
    let bad_cart = CartMBC1::new(bad);
    assert_eq!(bad_cart.validate_checksum(), Some(checksum_fn(bad_cart.rom())));
}

#[test]
fn law_timer_overflow_example() {
    let mut timer = Timer::new();
    timer.write_byte(0xFF07, 0b0000_0101);
    timer.write_byte(0xFF05, 0xFF);
    timer.write_byte(0xFF06, 0x42);
    timer.cycle(10);
    assert_eq!(timer.read_byte(0xFF05), 0xFF);
    assert_eq!(timer.interrupt_flags.read_byte() & 0b0000_0100, 0);
    timer.cycle(8);
    assert_eq!(timer.read_byte(0xFF05), 0x42);
    assert_eq!(timer.interrupt_flags.read_byte() & 0b0000_0100, 0b0000_0100);
}

#[test]
fn law_timer_disabled_example() {
    let mut timer = Timer::new();
    timer.write_byte(0xFF07, 0b0000_0001);
    timer.write_byte(0xFF05, 0x10);
    timer.cycle(200);
    timer.cycle(200);
    assert_eq!(timer.read_byte(0xFF05), 0x10);
    assert_eq!(timer.read_byte(0xFF04), 1);
    assert_eq!(timer.interrupt_flags.read_byte(), 0);
}

#[test]
fn law_joypad_press_interrupt_example() {
    let mut joypad = Joypad::new();
    joypad.write_byte(0b0010_0000);
    assert_eq!(joypad.interrupt_flags.read_byte(), 0);
    joypad.button_down(Button::A);
    assert_eq!(joypad.interrupt_flags.read_byte(), 0);
    joypad.button_down(Button::Up);
    assert_eq!(joypad.interrupt_flags.read_byte(), 0b0001_0000);
    assert_eq!(joypad.read_byte() & 0b0000_1111, 0b0000_1011);
}

#[test]
fn law_push_pop_hram_example() {
    let mut cpu = Cpu::new();
    cpu.sp = 0xFFFE;
    cpu.push_stack(0xBEEF);
    assert_eq!(cpu.sp, 0xFFFC);
    assert_eq!(cpu.mmu.read_2_bytes(0xFFFC), 0xBEEF);
    assert_eq!(cpu.pop_stack(), 0xBEEF);
    assert_eq!(cpu.sp, 0xFFFE);
}

#[test]
fn law_call_ret_example() {
    let mut cpu = Cpu::new();
    cpu.sp = 0xDFF0;
    cpu.pc = 0x0100;
    cpu.load(0x0100, &[0xCD, 0x00, 0x02]);
    cpu.load(0x0200, &[0xC9]);
    let (c1, _) = cpu.cycle(false, false);
    assert_eq!(c1, 24);
    assert_eq!(cpu.pc, 0x0200);
    let (c2, _) = cpu.cycle(false, false);
    assert_eq!(c2, 16);
    assert_eq!(cpu.pc, 0x0103);
    assert_eq!(cpu.sp, 0xDFF0);
}

#[test]
fn law_load_read_back_example() {
    let mut cpu = Cpu::new();
    cpu.load(0xC100, &[1, 2, 3, 4, 5]);
    for i in 0..5u16 {
        assert_eq!(cpu.mmu.read_byte(0xC100 + i), (i + 1) as u8);
    }
}

#[test]
fn law_button_press_release_register_example() {
    let mut joypad = Joypad::new();
    joypad.write_byte(0b0010_0000);
    let before = joypad.read_byte();
    joypad.button_down(Button::Left);
    assert_ne!(joypad.read_byte(), before);
    joypad.button_up(Button::Left);
    assert_eq!(joypad.read_byte(), before);
}

#[test]
fn law_pixels_are_shades_example() {
    let mut ppu = rbca_core::ppu::PPU::new();
    ppu.write_byte(0xFF40, 0b1001_0001);
    ppu.write_byte(0xFF47, 0b1110_0100);
    for i in 0..0x0100u16 {
        ppu.write_byte(0x8000 + i, (i as u8).wrapping_mul(37));
    }
    for _ in 0..2000 {
        ppu.cycle(4);
    }
    assert!(ppu.data_output.iter().all(|&p| p <= 3));
    let mut mmu = Mmu::new();
    let before = mmu.ppu.data_output;
    mmu.write_byte(0x9000, 0xAA);
    mmu.cycle(100);
    assert_eq!(mmu.ppu.data_output, before);
}

#[test]
fn law_instruction_size_example() {
    let mut cpu = Cpu::new();
    cpu.load(0x0000, &[0x00, 0x06, 0x12, 0xC3, 0x00, 0x02]);
    let (_, s1) = cpu.cycle(false, true);
    assert_eq!(s1.unwrap().size, 1);
    let (_, s2) = cpu.cycle(false, true);
    assert_eq!(s2.unwrap().size, 2);
    let (_, s3) = cpu.cycle(false, true);
    assert_eq!(s3.unwrap().size, 3);
}

#[test]
fn law_cp_is_sub_example() {
    let mut a = Cpu::new();
    a.regs.set_reg(Target::A, 0x3C);
    a.load(0x0000, &[0xFE, 0x2F]);
    let mut b = Cpu::new();
    b.regs.set_reg(Target::A, 0x3C);
    b.load(0x0000, &[0xD6, 0x2F]);
    a.cycle(false, false);
    b.cycle(false, false);
    assert_eq!(a.regs.get_reg(Target::A), 0x3C);
    assert_eq!(b.regs.get_reg(Target::A), 0x0D);
    for f in [RegFlag::Z, RegFlag::N, RegFlag::H, RegFlag::C] {
        assert_eq!(a.regs.get_flag(f), b.regs.get_flag(f));
    }
}

#[test]
fn law_add_result_example() {
    let mut cpu = Cpu::new();
    cpu.regs.set_reg(Target::A, 0x8F);
    cpu.load(0x0000, &[0xC6, 0x81]);
    cpu.cycle(false, false);
    assert_eq!(cpu.regs.get_reg(Target::A), 0x10);
    assert!(!cpu.regs.get_flag(RegFlag::Z));
    assert!(!cpu.regs.get_flag(RegFlag::N));
    assert!(cpu.regs.get_flag(RegFlag::H));
    assert!(cpu.regs.get_flag(RegFlag::C));
}

#[test]
fn law_vram_cart_word_read_after_write_example() {
    let mut mmu = Mmu::new();
    mmu.write_2_bytes(0x8800, 0x1234);
    assert_eq!(mmu.read_2_bytes(0x8800), 0x1234);
    mmu.write_2_bytes(0x4000, 0xABCD);
    assert_eq!(mmu.read_2_bytes(0x4000), 0xABCD);
    assert_eq!(mmu.read_byte(0x4000), 0xCD);
}
