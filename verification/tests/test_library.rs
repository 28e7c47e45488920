use rbca_core::cartridge::{
    checksum_fn, load_cartridge, loadable_exec, Cart, CartFeatures, Cartridge, CgbFlag, LOGO,
};
use rbca_core::cpu::{Cpu, EmuState};
use rbca_core::debugger::{match_breakpoint, Breakpoints};
use rbca_core::instructions::execute_opcode;
use rbca_core::palette::{classic_green, why_he_ourple, Colour, PresetPalette};

fn header_image(type_code: u8) -> Vec<u8> {
    let mut data = vec![0u8; 0x10000];
    data[0x0104..0x0134].copy_from_slice(&LOGO);
    data[0x0134..0x013A].copy_from_slice(b"TETRIS");
    data[0x0143] = 0x80;
    data[0x0146] = 0x03;
    data[0x0147] = type_code;
    data[0x0148] = 0x01;
    data[0x0149] = 0x03;
    data[0x014A] = 0x01;
    data[0x014C] = 0x02;
    data[0x014E] = 0x12;
    data[0x014F] = 0x34;
    let sum = checksum_fn(&data);
    data[0x014D] = sum;
    data
}

#[test]
fn cartridge_header_fields() {
    let cart = load_cartridge(header_image(0x00));
    assert!(matches!(cart, Cart::RomOnly(_)));
    assert!(cart.validate_logo());
    assert_eq!(cart.title(), "TETRIS\0\0\0\0\0\0\0\0\0");
    assert_eq!(cart.cgb_flag(), CgbFlag::CgbBkwd);
    assert!(cart.sgb_flag());
    assert_eq!(cart.rom_size(), 64 * 1024);
    assert_eq!(cart.ram_size(), 32 * 1024);
    assert!(cart.jpn());
    assert_eq!(cart.version_number(), 2);
    assert_eq!(cart.validate_checksum(), None);
    assert_eq!(cart.global_checksum(), 0x1234);
    assert_eq!(cart.manufacturer_code(), &[0u8, 0, 0, 0][..]);
}

#[test]
fn cartridge_bad_checksum_reported() {
    let mut data = header_image(0x00);
    let good = data[0x014D];
    data[0x014D] = good.wrapping_add(1);
    let cart = load_cartridge(data);
    assert_eq!(cart.validate_checksum(), Some(good));
}

#[test]
fn cartridge_title_drops_invalid_last_byte() {
    let mut data = header_image(0x00);
    data[0x0143] = 0xFF;
    let cart = load_cartridge(data);
    assert_eq!(cart.title(), "TETRIS\0\0\0\0\0\0\0\0\0");
    assert_eq!(cart.title_cgb(), "TETRIS\0\0\0\0\0");
}

#[test]
fn cartridge_title_invalid_utf8_is_empty() {
    let mut data = header_image(0x00);
    data[0x0136] = 0xFF;
    let cart = load_cartridge(data);
    assert_eq!(cart.title(), "");
}

#[test]
fn cartridge_features_from_code() {
    let f = CartFeatures::from_data(&header_image(0x03));
    assert!(f.mbc1 && f.ram && f.battery);
    assert!(!f.rom_only && !f.mbc3 && !f.timer);
    let g = CartFeatures::from_data(&header_image(0x10));
    assert!(g.mbc3 && g.timer && g.ram && g.battery);
    let h = CartFeatures::from_data(&header_image(0x42));
    assert_eq!(h, CartFeatures::default());
}

#[test]
fn cartridge_loadable_kinds() {
    assert!(loadable_exec(&header_image(0x00)));
    assert!(loadable_exec(&header_image(0x01)));
    assert!(!loadable_exec(&header_image(0x11)));
    let mut short = header_image(0x01);
    short.truncate(0x8000);
    assert!(!loadable_exec(&short));
    assert!(!loadable_exec(&vec![0u8; 0x100]));
    let cart = load_cartridge(header_image(0x01));
    assert!(matches!(cart, Cart::Mbc1(_)));
}

#[test]
fn palette_lookup() {
    let p = classic_green();
    assert_eq!(*p.num_to_hex(0), *p.lightest());
    assert_eq!(*p.num_to_hex(1), *p.light());
    assert_eq!(*p.num_to_hex(2), *p.dark());
    assert_eq!(*p.num_to_hex(3), *p.darkest());
    assert_eq!(*p.num_to_hex(7), *p.lightest());
    assert_eq!(PresetPalette::ClassicGreen.get(), Some(classic_green()));
    assert_eq!(PresetPalette::WhyHeOurple.get(), Some(why_he_ourple()));
    assert_eq!(PresetPalette::MintyPie.get(), None);
    assert_eq!(PresetPalette::MalibuBarbara.get(), None);
    assert_eq!(p.lightest().a, 0xFF);
    assert_ne!(*p.lightest(), Colour { r: 0, g: 0, b: 0, a: 0 });
}

#[test]
fn breakpoints_match() {
    let mut cpu = Cpu::new();
    cpu.pc = 0x0200;
    cpu.mmu.write_byte(0x0200, 0x3E);
    cpu.mmu.write_byte(0x0201, 0x42);
    cpu.regs.b = 7;
    let state = EmuState::new(&cpu);
    let mut bp = Breakpoints::new();
    assert!(!match_breakpoint(&bp, &state, false));
    assert!(match_breakpoint(&bp, &state, true));
    bp.program_counter.push(0x0201);
    assert!(!match_breakpoint(&bp, &state, false));
    bp.opcode_2_byte.push(0x423E);
    assert!(match_breakpoint(&bp, &state, false));
    let mut bp2 = Breakpoints::new();
    bp2.b_reg.push(7);
    assert!(match_breakpoint(&bp2, &state, false));
    let mut bp3 = Breakpoints::new();
    bp3.program_counter.push(0x0200);
    assert!(match_breakpoint(&bp3, &state, false));
}

#[test]
fn cycle_refused_on_illegal_opcode() {
    let mut cpu = Cpu::new();
    cpu.mmu.write_byte(0x0000, 0xD3);
    assert!(!cpu.can_cycle(false));
    cpu.mmu.write_byte(0x0000, 0x00);
    assert!(cpu.can_cycle(true));
    assert!(cpu.can_step(0x00));
    assert!(!cpu.can_step(0xDD));
}

#[test]
fn execute_opcode_reports_state() {
    let mut cpu = Cpu::new();
    cpu.mmu.write_byte(0x0000, 0x06);
    cpu.mmu.write_byte(0x0001, 0x99);
    let (cycles, state) = execute_opcode(&mut cpu, 0x06, false, true);
    assert_eq!(cycles, 8);
    assert_eq!(cpu.regs.b, 0x99);
    assert_eq!(cpu.pc, 2);
    let state = state.unwrap();
    assert_eq!(state.instruction_string, "LD B,n");
    assert_eq!(state.size, 2);
    assert_eq!(state.cycles, 8);
    assert_eq!(state.byte_0, 0x06);
    assert_eq!(state.byte_1, 0x99);
    assert_eq!(state.pc, 0);
    let (_, none) = execute_opcode(&mut cpu, 0x00, false, false);
    assert!(none.is_none());
}

#[test]
fn cartridge_features_text() {
    assert_eq!(CartFeatures::from_data(&header_image(0x03)).features_text(), "MBC1+RAM+BATTERY");
    assert_eq!(CartFeatures::from_data(&header_image(0x00)).features_text(), "ROM ONLY");
    assert_eq!(CartFeatures::from_data(&header_image(0x10)).features_text(), "MBC3+RAM+BATTERY+TIMER");
    assert_eq!(CartFeatures::from_data(&header_image(0x42)).features_text(), "");
}
