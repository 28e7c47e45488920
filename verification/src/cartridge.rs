//! Game Boy cartridges: the header, and the cartridge types that the emulator supports.
use vstd::prelude::*;
use vstd::string::StringSliceAdditionalSpecFns;
use vstd::string::StringExecFns;

pub mod empty;
pub mod mbc1;
pub mod rom_only;

pub use empty::{empty_byte, empty_written, CartEmpty};
pub use mbc1::{mbc1_data_ok, CartMBC1, MBC1View};
pub use rom_only::CartRomOnly;

verus! {

/// Number of bytes in a kibibyte.
pub const BYTES_IN_KIB: u32 = 1024;

/// The logo that every cartridge header holds at 0x0104..=0x0133.
pub const LOGO: [u8; 48] = [
    0xCE, 0xED, 0x66, 0x66, 0xCC, 0x0D, 0x00, 0x0B, 0x03, 0x73, 0x00, 0x83, 0x00, 0x0C, 0x00, 0x0D,
    0x00, 0x08, 0x11, 0x1F, 0x88, 0x89, 0x00, 0x0E, 0xDC, 0xCC, 0x6E, 0xE6, 0xDD, 0xDD, 0xD9, 0x99,
    0xBB, 0xBB, 0x67, 0x63, 0x6E, 0x0E, 0xEC, 0xCC, 0xDD, 0xDC, 0x99, 0x9F, 0xBB, 0xB9, 0x33, 0x3E,
];

/// Sum of the bytes `rom[lo..hi]`.
pub open spec fn byte_sum(rom: Seq<u8>, lo: int, hi: int) -> int
    decreases hi - lo,
{
    if hi <= lo {
        0
    } else {
        byte_sum(rom, lo, hi - 1) + rom[hi - 1]
    }
}

/// Reads `bytes` as UTF-8 text (`std::str::from_utf8`). The standard library documents that
/// the call fails exactly when the bytes are not valid UTF-8, and that on success the text has
/// exactly these bytes.
#[verifier::external_body]
fn str_from_utf8(bytes: &[u8]) -> (r: Option<&str>)
    ensures
        r.is_some() <==> vstd::utf8::valid_utf8(bytes@),
        r matches Some(s) ==> s.spec_bytes() == bytes@,
{
    std::str::from_utf8(bytes).ok()
}

/// The header checksum: 0 minus the sum of the bytes 0x0134..=0x014C and minus one per byte,
/// modulo 256.
pub open spec fn header_checksum(rom: Seq<u8>) -> u8 {
    ((0 - byte_sum(rom, 0x134, 0x14D) - 25) % 256) as u8
}

/// The ROM size (in bytes) that the header byte at 0x0148 announces.
pub open spec fn header_rom_size(code: u8) -> u32 {
    if code <= 8 {
        (vstd::arithmetic::power2::pow2(code as nat) * 32 * 1024) as u32
    } else {
        0
    }
}

/// The RAM size (in bytes) that the header byte at 0x0149 announces.
pub open spec fn header_ram_size(code: u8) -> u32 {
    if code == 0x02 {
        0x2000
    } else if code == 0x03 {
        0x8000
    } else if code == 0x04 {
        0x20000
    } else if code == 0x05 {
        0x10000
    } else {
        0
    }
}

/// The function used to calculate the header checksum.
pub fn checksum_fn(rom: &[u8]) -> (r: u8)
    requires
        rom@.len() > 0x014C,
    ensures
        r == header_checksum(rom@),
{
    let mut checksum: u8 = 0;
    let mut i: usize = 0x0134;
    while i <= 0x014C
        invariant
            rom@.len() > 0x014C,
            0x134 <= i <= 0x14D,
            checksum == ((0 - byte_sum(rom@, 0x134, i as int) - (i - 0x134)) % 256) as u8,
        decreases 0x14D - i,
    {
        let ghost s = byte_sum(rom@, 0x134, i as int);
        let ghost k = i - 0x134;
        let r = rom[i];
        let c1 = checksum.wrapping_sub(r);
        proof {
            vstd::arithmetic::div_mod::lemma_sub_mod_noop(0 - s - k, r as int, 256);
            vstd::arithmetic::div_mod::lemma_small_mod(r as nat, 256);
            assert(c1 == ((0 - s - k - r) % 256) as u8);
        }
        checksum = c1.wrapping_sub(1);
        proof {
            vstd::arithmetic::div_mod::lemma_sub_mod_noop(0 - s - k - r, 1, 256);
            vstd::arithmetic::div_mod::lemma_small_mod(1, 256);
            vstd::arithmetic::div_mod::lemma_mod_twice(0 - s - k - r, 256);
            assert(byte_sum(rom@, 0x134, i + 1) == s + rom@[i as int]);
        }
        i = i + 1;
    }
    checksum
}

/// The different states of the CGB header flag.
#[derive(Debug, Copy, Clone, PartialEq, Eq, Structural)]
pub enum CgbFlag {
    /// DMG cartridge. Compatible with DMG & CGB.
    Dmg,
    /// Cartridge with CGB enhancements that is backwards-compatible with DMG.
    CgbBkwd,
    /// Cartridge that works on CGB only.
    Cgb,
    /// Unknown PGB mode.
    Pgb,
}

/// The CGB flag that the header byte at 0x0143 announces.
pub open spec fn cgb_flag_of(code: u8) -> CgbFlag {
    if code == 0b1000_0000 {
        CgbFlag::CgbBkwd
    } else if code == 0b1100_0000 {
        CgbFlag::Cgb
    } else if code == 0b1000_1000 || code == 0b1000_0100 {
        CgbFlag::Pgb
    } else {
        CgbFlag::Dmg
    }
}


/// All the different hardware features a cartridge can have.
#[derive(Debug, Clone, Copy, PartialEq, Eq, Structural)]
pub struct CartFeatures {
    pub rom_only: bool,
    pub rom: bool,
    pub mbc1: bool,
    pub mbc2: bool,
    pub mbc3: bool,
    pub mbc5: bool,
    pub mbc6: bool,
    pub mbc7: bool,
    pub ram: bool,
    pub battery: bool,
    pub mmm01: bool,
    pub timer: bool,
    pub rumble: bool,
    pub sensor: bool,
    pub pocket_camera: bool,
    pub bandai_tama5: bool,
    pub huc3: bool,
    pub huc1: bool,
}

/// The feature set with no feature at all.
pub open spec fn no_features() -> CartFeatures {
    CartFeatures {
        rom_only: false,
        rom: false,
        mbc1: false,
        mbc2: false,
        mbc3: false,
        mbc5: false,
        mbc6: false,
        mbc7: false,
        ram: false,
        battery: false,
        mmm01: false,
        timer: false,
        rumble: false,
        sensor: false,
        pocket_camera: false,
        bandai_tama5: false,
        huc3: false,
        huc1: false,
    }
}

/// The features that the cartridge type byte (header address 0x0147) announces. Each feature
/// is listed with the type codes that have it; unknown codes have no feature.
pub open spec fn features_for_code(c: u8) -> CartFeatures {
    CartFeatures {
        rom_only: c == 0x00,
        rom: c == 0x08 || c == 0x09,
        mbc1: c == 0x01 || c == 0x02 || c == 0x03,
        mbc2: c == 0x05 || c == 0x06,
        mbc3: 0x0F <= c <= 0x13,
        mbc5: 0x19 <= c <= 0x1E,
        mbc6: c == 0x20,
        mbc7: c == 0x22,
        ram: c == 0x02 || c == 0x03 || c == 0x08 || c == 0x09 || c == 0x0C || c == 0x0D || c
            == 0x10 || c == 0x12 || c == 0x13 || c == 0x1A || c == 0x1B || c == 0x1D || c == 0x1E
            || c == 0x22 || c == 0xFF,
        battery: c == 0x03 || c == 0x06 || c == 0x09 || c == 0x0D || c == 0x0F || c == 0x10 || c
            == 0x13 || c == 0x1B || c == 0x1E || c == 0x22 || c == 0xFF,
        mmm01: 0x0B <= c <= 0x0D,
        timer: c == 0x0F || c == 0x10,
        rumble: 0x1C <= c <= 0x1E || c == 0x22,
        sensor: c == 0x22,
        pocket_camera: c == 0xFC,
        bandai_tama5: c == 0xFD,
        huc3: c == 0xFE,
        huc1: c == 0xFF,
    }
}

impl Default for CartFeatures {
    fn default() -> (r: Self)
        ensures
            r == no_features(),
    {
        CartFeatures {
            rom_only: false,
            rom: false,
            mbc1: false,
            mbc2: false,
            mbc3: false,
            mbc5: false,
            mbc6: false,
            mbc7: false,
            ram: false,
            battery: false,
            mmm01: false,
            timer: false,
            rumble: false,
            sensor: false,
            pocket_camera: false,
            bandai_tama5: false,
            huc3: false,
            huc1: false,
        }
    }
}

/// The name of feature number `i`, in the order of [CartFeatures]' fields.
pub open spec fn feature_name(i: int) -> Seq<char> {
    if i == 0 {
        "ROM ONLY"@
    } else if i == 1 {
        "ROM"@
    } else if i == 2 {
        "MBC1"@
    } else if i == 3 {
        "MBC2"@
    } else if i == 4 {
        "MBC3"@
    } else if i == 5 {
        "MBC5"@
    } else if i == 6 {
        "MBC6"@
    } else if i == 7 {
        "MBC7"@
    } else if i == 8 {
        "RAM"@
    } else if i == 9 {
        "BATTERY"@
    } else if i == 10 {
        "MMM01"@
    } else if i == 11 {
        "TIMER"@
    } else if i == 12 {
        "RUMBLE"@
    } else if i == 13 {
        "SENSOR"@
    } else if i == 14 {
        "POCKET CAMERA"@
    } else if i == 15 {
        "BANDAI TAMA5"@
    } else if i == 16 {
        "HuC3"@
    } else {
        "HuC1"@
    }
}

/// True iff the features include feature number `i`.
pub open spec fn feature_present(f: CartFeatures, i: int) -> bool {
    if i == 0 {
        f.rom_only
    } else if i == 1 {
        f.rom
    } else if i == 2 {
        f.mbc1
    } else if i == 3 {
        f.mbc2
    } else if i == 4 {
        f.mbc3
    } else if i == 5 {
        f.mbc5
    } else if i == 6 {
        f.mbc6
    } else if i == 7 {
        f.mbc7
    } else if i == 8 {
        f.ram
    } else if i == 9 {
        f.battery
    } else if i == 10 {
        f.mmm01
    } else if i == 11 {
        f.timer
    } else if i == 12 {
        f.rumble
    } else if i == 13 {
        f.sensor
    } else if i == 14 {
        f.pocket_camera
    } else if i == 15 {
        f.bandai_tama5
    } else if i == 16 {
        f.huc3
    } else {
        f.huc1
    }
}

/// True iff one of the first `n` features is present.
pub open spec fn any_feature_before(f: CartFeatures, n: nat) -> bool
    decreases n,
{
    n > 0 && (any_feature_before(f, (n - 1) as nat) || feature_present(f, n - 1))
}

/// The names of the present features among the first `n`, joined with "+".
pub open spec fn features_joined(f: CartFeatures, n: nat) -> Seq<char>
    decreases n,
{
    if n == 0 {
        Seq::empty()
    } else {
        let prev = features_joined(f, (n - 1) as nat);
        if !feature_present(f, n - 1) {
            prev
        } else if any_feature_before(f, (n - 1) as nat) {
            prev + "+"@ + feature_name(n - 1)
        } else {
            feature_name(n - 1)
        }
    }
}

/// Before the first present feature, the joined text is empty.
proof fn lemma_features_joined_empty(f: CartFeatures, n: nat)
    requires
        !any_feature_before(f, n),
    ensures
        features_joined(f, n) == Seq::<char>::empty(),
    decreases n,
{
    if n > 0 {
        lemma_features_joined_empty(f, (n - 1) as nat);
    }
}

fn feature_name_exec(i: usize) -> (r: &'static str)
    requires
        i < 18,
    ensures
        r@ == feature_name(i as int),
{
    if i == 0 {
        "ROM ONLY"
    } else if i == 1 {
        "ROM"
    } else if i == 2 {
        "MBC1"
    } else if i == 3 {
        "MBC2"
    } else if i == 4 {
        "MBC3"
    } else if i == 5 {
        "MBC5"
    } else if i == 6 {
        "MBC6"
    } else if i == 7 {
        "MBC7"
    } else if i == 8 {
        "RAM"
    } else if i == 9 {
        "BATTERY"
    } else if i == 10 {
        "MMM01"
    } else if i == 11 {
        "TIMER"
    } else if i == 12 {
        "RUMBLE"
    } else if i == 13 {
        "SENSOR"
    } else if i == 14 {
        "POCKET CAMERA"
    } else if i == 15 {
        "BANDAI TAMA5"
    } else if i == 16 {
        "HuC3"
    } else {
        "HuC1"
    }
}

fn feature_present_exec(f: &CartFeatures, i: usize) -> (r: bool)
    requires
        i < 18,
    ensures
        r == feature_present(*f, i as int),
{
    if i == 0 {
        f.rom_only
    } else if i == 1 {
        f.rom
    } else if i == 2 {
        f.mbc1
    } else if i == 3 {
        f.mbc2
    } else if i == 4 {
        f.mbc3
    } else if i == 5 {
        f.mbc5
    } else if i == 6 {
        f.mbc6
    } else if i == 7 {
        f.mbc7
    } else if i == 8 {
        f.ram
    } else if i == 9 {
        f.battery
    } else if i == 10 {
        f.mmm01
    } else if i == 11 {
        f.timer
    } else if i == 12 {
        f.rumble
    } else if i == 13 {
        f.sensor
    } else if i == 14 {
        f.pocket_camera
    } else if i == 15 {
        f.bandai_tama5
    } else if i == 16 {
        f.huc3
    } else {
        f.huc1
    }
}

impl CartFeatures {
    /// The names of the present features joined with "+", in the order of the fields (for
    /// example "MBC1+RAM+BATTERY").
    pub fn features_text(&self) -> (r: String)
        ensures
            r@ == features_joined(*self, 18),
    {
        let mut s = String::new();
        let mut any = false;
        let mut i: usize = 0;
        while i < 18
            invariant
                i <= 18,
                s@ == features_joined(*self, i as nat),
                any == any_feature_before(*self, i as nat),
            decreases 18 - i,
        {
            proof {
                if !any {
                    lemma_features_joined_empty(*self, i as nat);
                }
            }
            if feature_present_exec(self, i) {
                if any {
                    s.append("+");
                }
                s.append(feature_name_exec(i));
                any = true;
            }
            i = i + 1;
        }
        s
    }
}

impl CartFeatures {
    /// Read the [CartFeatures] from the cartridge header.
    pub fn from_data(data: &[u8]) -> (r: Self)
        requires
            data@.len() > 0x0147,
        ensures
            r == features_for_code(data@[0x0147]),
    {
        let mut cf = CartFeatures::default();
        match data[0x0147] {
            0x00 => cf.rom_only = true,
            0x01 => cf.mbc1 = true,
            0x02 => {
                cf.mbc1 = true;
                cf.ram = true;
            },
            0x03 => {
                cf.mbc1 = true;
                cf.ram = true;
                cf.battery = true;
            },
            0x05 => cf.mbc2 = true,
            0x06 => {
                cf.mbc2 = true;
                cf.battery = true;
            },
            0x08 => {
                cf.rom = true;
                cf.ram = true;
            },
            0x09 => {
                cf.rom = true;
                cf.ram = true;
                cf.battery = true;
            },
            0x0B => cf.mmm01 = true,
            0x0C => {
                cf.mmm01 = true;
                cf.ram = true;
            },
            0x0D => {
                cf.mmm01 = true;
                cf.ram = true;
                cf.battery = true;
            },
            0x0F => {
                cf.mbc3 = true;
                cf.timer = true;
                cf.battery = true;
            },
            0x10 => {
                cf.mbc3 = true;
                cf.timer = true;
                cf.ram = true;
                cf.battery = true;
            },
            0x11 => cf.mbc3 = true,
            0x12 => {
                cf.mbc3 = true;
                cf.ram = true;
            },
            0x13 => {
                cf.mbc3 = true;
                cf.ram = true;
                cf.battery = true;
            },
            0x19 => cf.mbc5 = true,
            0x1A => {
                cf.mbc5 = true;
                cf.ram = true;
            },
            0x1B => {
                cf.mbc5 = true;
                cf.ram = true;
                cf.battery = true;
            },
            0x1C => {
                cf.mbc5 = true;
                cf.rumble = true;
            },
            0x1D => {
                cf.mbc5 = true;
                cf.rumble = true;
                cf.ram = true;
            },
            0x1E => {
                cf.mbc5 = true;
                cf.rumble = true;
                cf.ram = true;
                cf.battery = true;
            },
            0x20 => cf.mbc6 = true,
            0x22 => {
                cf.mbc7 = true;
                cf.sensor = true;
                cf.rumble = true;
                cf.ram = true;
                cf.battery = true;
            },
            0xFC => cf.pocket_camera = true,
            0xFD => cf.bandai_tama5 = true,
            0xFE => cf.huc3 = true,
            0xFF => {
                cf.huc1 = true;
                cf.ram = true;
                cf.battery = true;
            },
            _ => {},
        }
        cf
    }
}

/// The header bytes 0x0134..=`end` read as text: all of them if they are valid UTF-8, else all
/// but the last if those are, else the empty text.
pub open spec fn title_bytes(rom: Seq<u8>, end: int) -> Seq<u8> {
    if vstd::utf8::valid_utf8(rom.subrange(0x134, end + 1)) {
        rom.subrange(0x134, end + 1)
    } else if vstd::utf8::valid_utf8(rom.subrange(0x134, end)) {
        rom.subrange(0x134, end)
    } else {
        Seq::empty()
    }
}

/// The global checksum stored big-endian at 0x014E..=0x014F.
pub open spec fn global_checksum_of(rom: Seq<u8>) -> u16 {
    (rom[0x14E] * 256 + rom[0x14F]) as u16
}

/// A Game Boy cartridge.
pub trait Cartridge {
    /// The full raw ROM contents.
    spec fn rom_view(&self) -> Seq<u8>;

    /// The cartridge features.
    spec fn features_view(&self) -> CartFeatures;

    /// True iff this stands for "no cartridge inserted".
    spec fn spec_is_empty(&self) -> bool;

    /// True iff reading the ROM at `address` succeeds.
    spec fn rom_readable(&self, address: u16) -> bool;

    /// The byte read from the ROM at `address`.
    spec fn rom_byte(&self, address: u16) -> u8;

    /// True iff reading and writing the RAM at `address` succeeds.
    spec fn ram_accessible(&self, address: u16) -> bool;

    /// The byte read from the RAM at `address`.
    spec fn ram_byte(&self, address: u16) -> u8;

    /// True iff writing the ROM at `address` succeeds.
    spec fn rom_writable(&self, address: u16) -> bool;

    /// `after` is this cartridge once `value` was written to the ROM at `address`.
    spec fn rom_written(&self, address: u16, value: u8, after: &Self) -> bool;

    /// `after` is this cartridge once `value` was written to the RAM at `address`.
    spec fn ram_written(&self, address: u16, value: u8, after: &Self) -> bool;

    /// Get the full raw ROM contents of the cartridge.
    fn rom(&self) -> (r: &[u8])
        ensures
            r@ == self.rom_view(),
    ;

    /// Get the cartridge features.
    fn cart_features(&self) -> (r: &CartFeatures)
        ensures
            *r == self.features_view(),
    ;

    /// True iff this stands for "no cartridge inserted".
    fn is_empty(&self) -> (r: bool)
        ensures
            r == self.spec_is_empty(),
    ;

    /// Read a byte from the cartridge ROM.
    fn read_rom(&self, address: u16) -> (r: u8)
        requires
            self.rom_readable(address),
        ensures
            r == self.rom_byte(address),
    ;

    /// Read a byte from the cartridge RAM.
    fn read_ram(&self, address: u16) -> (r: u8)
        requires
            self.ram_accessible(address),
        ensures
            r == self.ram_byte(address),
    ;

    /// "Write" a byte to the cartridge ROM. This usually has some other effect, such as setting
    /// an internal cartridge register.
    fn write_rom(&mut self, address: u16, value: u8)
        requires
            old(self).rom_writable(address),
        ensures
            old(self).rom_written(address, value, final(self)),
    ;

    /// Write a byte to the cartridge RAM.
    fn write_ram(&mut self, address: u16, value: u8)
        requires
            old(self).ram_accessible(address),
        ensures
            old(self).ram_written(address, value, final(self)),
    ;

    /// Get the logo shown at startup.
    fn logo(&self) -> (r: &[u8])
        requires
            self.rom_view().len() > 0x0133,
        ensures
            r@ == self.rom_view().subrange(0x104, 0x134),
    {
        let rom = self.rom();
        &rom[0x0104..0x0134]
    }

    /// Verify the accuracy of the logo. Return true iff logo is okay.
    fn validate_logo(&self) -> (r: bool)
        requires
            self.rom_view().len() > 0x0133,
        ensures
            r == (self.rom_view().subrange(0x104, 0x134) == LOGO@),
    {
        let rom = self.rom();
        let mut i: usize = 0;
        while i < 48
            invariant
                rom@ == self.rom_view(),
                rom@.len() > 0x0133,
                i <= 48,
                forall|j: int| 0 <= j < i ==> rom@[0x104 + j] == LOGO@[j],
            decreases 48 - i,
        {
            if rom[0x0104 + i] != LOGO[i] {
                proof {
                    assert(self.rom_view().subrange(0x104, 0x134)[i as int] != LOGO@[i as int]);
                }
                return false;
            }
            i = i + 1;
        }
        assert(self.rom_view().subrange(0x104, 0x134) =~= LOGO@);
        true
    }

    /// Get the cartridge title.
    fn title(&self) -> (r: &str)
        requires
            self.rom_view().len() > 0x0143,
        ensures
            r.spec_bytes() == title_bytes(self.rom_view(), 0x143),
    {
        self.title_helper(0x0143)
    }

    /// Get the 11-byte cartridge title (for CGB & later cartridges).
    fn title_cgb(&self) -> (r: &str)
        requires
            self.rom_view().len() > 0x013E,
        ensures
            r.spec_bytes() == title_bytes(self.rom_view(), 0x13E),
    {
        self.title_helper(0x013E)
    }

    /// Helper for title functions.
    fn title_helper(&self, end_index: u16) -> (r: &str)
        requires
            0x0134 < end_index,
            self.rom_view().len() > end_index,
        ensures
            r.spec_bytes() == title_bytes(self.rom_view(), end_index as int),
    {
        let rom = self.rom();
        let end = end_index as usize;
        match str_from_utf8(&rom[0x0134..end + 1]) {
            Some(val) => val,
            None => match str_from_utf8(&rom[0x0134..end]) {
                Some(val) => val,
                None => {
                    assert(vstd::utf8::valid_utf8(Seq::<u8>::empty())) by {
                        reveal_with_fuel(vstd::utf8::valid_utf8, 2);
                    }
                    let empty: &[u8] = &rom[0..0];
                    assert(empty@ =~= Seq::<u8>::empty());
                    match str_from_utf8(empty) {
                        Some(val) => val,
                        None => "",
                    }
                },
            },
        }
    }

    /// Get the manufacturer code.
    fn manufacturer_code(&self) -> (r: &[u8])
        requires
            self.rom_view().len() > 0x0142,
        ensures
            r@ == self.rom_view().subrange(0x13F, 0x143),
    {
        let rom = self.rom();
        &rom[0x013F..0x0143]
    }

    /// Get the CGB flag.
    fn cgb_flag(&self) -> (r: CgbFlag)
        requires
            self.rom_view().len() > 0x0143,
        ensures
            r == cgb_flag_of(self.rom_view()[0x143]),
    {
        let rom = self.rom();
        match rom[0x0143] {
            0b1000_0000 => CgbFlag::CgbBkwd,
            0b1100_0000 => CgbFlag::Cgb,
            0b1000_1000 | 0b1000_0100 => CgbFlag::Pgb,
            _ => CgbFlag::Dmg,
        }
    }

    /// Return true iff the cartridge supports SGB functionality.
    fn sgb_flag(&self) -> (r: bool)
        requires
            self.rom_view().len() > 0x0146,
        ensures
            r == (self.rom_view()[0x146] == 0x03),
    {
        let rom = self.rom();
        rom[0x0146] == 0x03
    }

    /// Get the amount of ROM present on the cartridge (in bytes).
    fn rom_size(&self) -> (r: u32)
        requires
            self.rom_view().len() > 0x0148,
        ensures
            r == header_rom_size(self.rom_view()[0x148]),
    {
        let rom = self.rom();
        let val = rom[0x0148];
        if val <= 0x08 {
            proof {
                vstd::arithmetic::power2::lemma2_to64();
                assert((val == 0 && (1u32 << val) == 1) || (val == 1 && (1u32 << val) == 2) || (val
                    == 2 && (1u32 << val) == 4) || (val == 3 && (1u32 << val) == 8) || (val == 4 && (
                1u32 << val) == 16) || (val == 5 && (1u32 << val) == 32) || (val == 6 && (1u32
                    << val) == 64) || (val == 7 && (1u32 << val) == 128) || (val == 8 && (1u32
                    << val) == 256)) by (bit_vector)
                    requires
                        val <= 8,
                ;
            }
            (1u32 << val) * 32 * BYTES_IN_KIB
        } else {
            0
        }
    }

    /// Get the amount of RAM present on the cartridge (in bytes).
    fn ram_size(&self) -> (r: u32)
        requires
            self.rom_view().len() > 0x0149,
        ensures
            r == header_ram_size(self.rom_view()[0x149]),
    {
        let rom = self.rom();
        (match rom[0x0149] {
            0x02 => 8,
            0x03 => 32,
            0x04 => 128,
            0x05 => 64,
            _ => 0,
        }) * BYTES_IN_KIB
    }

    /// Return true iff cartridge was intended to be sold in Japan. Otherwise, it was overseas
    /// only.
    fn jpn(&self) -> (r: bool)
        requires
            self.rom_view().len() > 0x014A,
        ensures
            r == (self.rom_view()[0x14A] != 0x00),
    {
        let rom = self.rom();
        rom[0x014A] != 0x00
    }

    /// Get the version number of the cartridge (usually 0).
    fn version_number(&self) -> (r: u8)
        requires
            self.rom_view().len() > 0x014C,
        ensures
            r == self.rom_view()[0x14C],
    {
        let rom = self.rom();
        rom[0x014C]
    }

    /// Get the header checksum.
    fn checksum(&self) -> (r: u8)
        requires
            self.rom_view().len() > 0x014D,
        ensures
            r == self.rom_view()[0x14D],
    {
        let rom = self.rom();
        rom[0x014D]
    }

    /// Validate checksum. Return None if checksum passes. Otherwise, return the incorrect
    /// checksum that was produced.
    fn validate_checksum(&self) -> (r: Option<u8>)
        requires
            self.rom_view().len() > 0x014D,
        ensures
            r == (if self.rom_view()[0x14D] == header_checksum(self.rom_view()) {
                None
            } else {
                Some(header_checksum(self.rom_view()))
            }),
    {
        let checksum = checksum_fn(self.rom());
        if self.checksum() == checksum {
            None
        } else {
            Some(checksum)
        }
    }

    /// Get the global checksum.
    fn global_checksum(&self) -> (r: u16)
        requires
            self.rom_view().len() > 0x014F,
        ensures
            r == global_checksum_of(self.rom_view()),
    {
        let rom = self.rom();
        let hi = rom[0x014E];
        let lo = rom[0x014F];
        assert(((hi as u16) << 8) | (lo as u16) == hi * 256 + lo) by (bit_vector);
        ((hi as u16) << 8) | (lo as u16)
    }
}


/// A cartridge of one of the supported kinds.
#[derive(Debug)]
pub enum Cart {
    /// No cartridge inserted.
    Empty(CartEmpty),
    /// A cartridge with nothing but ROM.
    RomOnly(CartRomOnly),
    /// A cartridge with an MBC1 controller.
    Mbc1(CartMBC1),
}

/// The state of a cartridge.
pub enum CartView {
    Empty { mem: Seq<u8>, features: CartFeatures },
    RomOnly { rom: Seq<u8>, features: CartFeatures },
    Mbc1(MBC1View),
}

impl CartView {
    /// The ROM contents.
    pub open spec fn rom(self) -> Seq<u8> {
        match self {
            CartView::Empty { mem, .. } => mem,
            CartView::RomOnly { rom, .. } => rom,
            CartView::Mbc1(m) => m.rom,
        }
    }

    /// The features announced for the cartridge.
    pub open spec fn features(self) -> CartFeatures {
        match self {
            CartView::Empty { features, .. } => features,
            CartView::RomOnly { features, .. } => features,
            CartView::Mbc1(m) => m.features,
        }
    }

    /// True iff reading the ROM at `address` (0x0000..=0x7FFF) succeeds.
    pub open spec fn rom_readable(self, address: u16) -> bool {
        match self {
            CartView::Empty { .. } => true,
            CartView::RomOnly { rom, .. } => address < rom.len(),
            CartView::Mbc1(m) => m.wf(),
        }
    }

    /// The byte read at a ROM address.
    pub open spec fn read_rom(self, address: u16) -> u8 {
        match self {
            CartView::Empty { mem, .. } => empty_byte(mem, address),
            CartView::RomOnly { rom, .. } => rom[address as int],
            CartView::Mbc1(m) => m.read_rom(address),
        }
    }

    /// True iff reading and writing the RAM at `address` (0xA000..=0xBFFF) succeeds.
    pub open spec fn ram_accessible(self, address: u16) -> bool {
        match self {
            CartView::Mbc1(m) => m.wf() && m.ram_accessible(address),
            _ => true,
        }
    }

    /// The byte read at a RAM address.
    pub open spec fn read_ram(self, address: u16) -> u8 {
        match self {
            CartView::Empty { mem, .. } => empty_byte(mem, address),
            CartView::RomOnly { .. } => 0xFF,
            CartView::Mbc1(m) => m.read_ram(address),
        }
    }

    /// True iff writing at a ROM address (0x0000..=0x7FFF) succeeds.
    pub open spec fn rom_writable(self, address: u16) -> bool {
        match self {
            CartView::Mbc1(m) => 0x4000 <= address <= 0x5FFF ==> m.wf(),
            _ => true,
        }
    }

    /// The cartridge once `value` was written at a ROM address.
    pub open spec fn rom_written(self, address: u16, value: u8) -> CartView {
        match self {
            CartView::Empty { mem, features } => CartView::Empty {
                mem: empty_written(mem, address, value),
                features,
            },
            CartView::RomOnly { .. } => self,
            CartView::Mbc1(m) => CartView::Mbc1(m.rom_written(address, value)),
        }
    }

    /// The cartridge once `value` was written at a RAM address.
    pub open spec fn ram_written(self, address: u16, value: u8) -> CartView {
        match self {
            CartView::Empty { mem, features } => CartView::Empty {
                mem: empty_written(mem, address, value),
                features,
            },
            CartView::RomOnly { .. } => self,
            CartView::Mbc1(m) => CartView::Mbc1(m.ram_written(address, value)),
        }
    }
}

impl View for Cart {
    type V = CartView;

    open spec fn view(&self) -> CartView {
        match self {
            Cart::Empty(c) => CartView::Empty { mem: c@, features: c.features() },
            Cart::RomOnly(c) => CartView::RomOnly { rom: c@, features: c.features() },
            Cart::Mbc1(c) => CartView::Mbc1(c@),
        }
    }
}

/// The ROM images that [load_cartridge] accepts: an MBC1 cartridge that is valid, or a
/// ROM-only cartridge.
pub open spec fn loadable(data: Seq<u8>) -> bool {
    &&& data.len() > 0x0147
    &&& features_for_code(data[0x147]).mbc1 ==> mbc1_data_ok(data)
    &&& features_for_code(data[0x147]).mbc1 || features_for_code(data[0x147]).rom_only
}

/// Make a cartridge from its ROM image, of the kind that its header announces.
pub fn load_cartridge(data: Vec<u8>) -> (r: Cart)
    requires
        loadable(data@),
    ensures
        features_for_code(data@[0x147]).mbc1 ==> r@ == CartView::Mbc1(
            MBC1View {
                rom: data@,
                ram: Seq::new(header_ram_size(data@[0x149]) as nat, |i: int| 0u8),
                features: features_for_code(data@[0x147]),
                ram_enable: false,
                rom_bank_number: 0,
                ram_bank_number: 0,
                banking_mode_select: false,
            },
        ),
        !features_for_code(data@[0x147]).mbc1 ==> r@ == (CartView::RomOnly {
            rom: data@,
            features: features_for_code(data@[0x147]),
        }),
{
    let cart_features = CartFeatures::from_data(data.as_slice());
    if cart_features.mbc1 {
        Cart::Mbc1(CartMBC1::new(data))
    } else {
        Cart::RomOnly(CartRomOnly::new(data, cart_features))
    }
}

/// Check whether [load_cartridge] accepts `data`.
pub fn loadable_exec(data: &[u8]) -> (r: bool)
    ensures
        r == loadable(data@),
{
    if data.len() <= 0x0147 {
        return false;
    }
    let cf = CartFeatures::from_data(data);
    if cf.mbc1 {
        CartMBC1::data_ok(data)
    } else {
        cf.rom_only
    }
}

impl Cartridge for Cart {
    open spec fn rom_view(&self) -> Seq<u8> {
        self@.rom()
    }

    open spec fn features_view(&self) -> CartFeatures {
        self@.features()
    }

    open spec fn spec_is_empty(&self) -> bool {
        self@ is Empty
    }

    open spec fn rom_readable(&self, address: u16) -> bool {
        address <= 0x7FFF && self@.rom_readable(address)
    }

    open spec fn rom_byte(&self, address: u16) -> u8 {
        self@.read_rom(address)
    }

    open spec fn ram_accessible(&self, address: u16) -> bool {
        0xA000 <= address <= 0xBFFF && self@.ram_accessible(address)
    }

    open spec fn ram_byte(&self, address: u16) -> u8 {
        self@.read_ram(address)
    }

    open spec fn rom_writable(&self, address: u16) -> bool {
        address <= 0x7FFF && self@.rom_writable(address)
    }

    open spec fn rom_written(&self, address: u16, value: u8, after: &Self) -> bool {
        after@ == self@.rom_written(address, value)
    }

    open spec fn ram_written(&self, address: u16, value: u8, after: &Self) -> bool {
        after@ == self@.ram_written(address, value)
    }

    fn rom(&self) -> (r: &[u8]) {
        match self {
            Cart::Empty(c) => c.rom(),
            Cart::RomOnly(c) => c.rom(),
            Cart::Mbc1(c) => c.rom(),
        }
    }

    fn cart_features(&self) -> (r: &CartFeatures) {
        match self {
            Cart::Empty(c) => c.cart_features(),
            Cart::RomOnly(c) => c.cart_features(),
            Cart::Mbc1(c) => c.cart_features(),
        }
    }

    fn is_empty(&self) -> (r: bool) {
        match self {
            Cart::Empty(c) => c.is_empty(),
            Cart::RomOnly(c) => c.is_empty(),
            Cart::Mbc1(c) => c.is_empty(),
        }
    }

    fn read_rom(&self, address: u16) -> (r: u8) {
        match self {
            Cart::Empty(c) => c.read_rom(address),
            Cart::RomOnly(c) => c.read_rom(address),
            Cart::Mbc1(c) => c.read_rom(address),
        }
    }

    fn read_ram(&self, address: u16) -> (r: u8) {
        match self {
            Cart::Empty(c) => c.read_ram(address),
            Cart::RomOnly(c) => c.read_ram(address),
            Cart::Mbc1(c) => c.read_ram(address),
        }
    }

    fn write_rom(&mut self, address: u16, value: u8) {
        match self {
            Cart::Empty(c) => c.write_rom(address, value),
            Cart::RomOnly(c) => c.write_rom(address, value),
            Cart::Mbc1(c) => c.write_rom(address, value),
        }
    }

    fn write_ram(&mut self, address: u16, value: u8) {
        match self {
            Cart::Empty(c) => c.write_ram(address, value),
            Cart::RomOnly(c) => c.write_ram(address, value),
            Cart::Mbc1(c) => c.write_ram(address, value),
        }
    }
}

} // verus!
