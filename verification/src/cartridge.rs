//! Cartridge metadata: an immutable byte sequence loaded once, exposing
//! fixed-offset header fields. The cartridge-type byte at offset 0x147
//! selects one of the known banking/RAM/battery configurations; the ROM-size
//! byte at offset 0x148 selects one of the known sizes.

use vstd::prelude::*;

verus! {

/// The known banking/RAM/battery configurations named by the header byte at
/// offset 0x147.
#[allow(non_camel_case_types)]
#[derive(Clone, Copy, Debug, PartialEq, Eq, Structural)]
pub enum CartridgeType {
    ROM_ONLY,
    MBC1,
    MBC1_RAM,
    MBC1_RAM_BATTERY,
    MBC2,
    MBC2_BATTERY,
    ROM_RAM,
    ROM_RAM_BATTERY,
    MMM01,
    MMM01_RAM,
    MMM01_RAM_BATTERY,
    MBC3_TIMER_BATTERY,
    MBC3_TIMER_RAM_BATTERY,
    MBC3,
    MBC3_RAM,
    MBC3_RAM_BATTERY,
    MBC5,
    MBC5_RAM,
    MBC5_RAM_BATTERY,
    MBC5_RUMBLE,
}

/// The known ROM sizes named by the header byte at offset 0x148, from
/// 32 KiB to 1.5 MiB, the non-power-of-two variants included.
#[allow(non_camel_case_types)]
#[derive(Clone, Copy, Debug, PartialEq, Eq, Structural)]
pub enum RomSize {
    KB32,
    KB64,
    KB128,
    KB256,
    KB512,
    MB1,
    MB2,
    MB4,
    MB1_1,
    MB1_2,
    MB1_5,
}

/// A fixed-offset header field: an inclusive byte range of the cartridge.
#[derive(Clone, Copy, Debug, PartialEq, Eq, Structural)]
pub struct CartridgeRegion {
    pub start: u16,
    pub end: u16,
}

impl CartridgeRegion {
    /// The entry-point field: bytes 0x000 ..= 0x0FF.
    pub fn entry_point() -> (r: CartridgeRegion)
        ensures
            r == (CartridgeRegion { start: 0x000, end: 0x0FF }),
    {
        CartridgeRegion { start: 0x000, end: 0x0FF }
    }

    /// The logo bitmap field: bytes 0x104 ..= 0x132.
    pub fn logo() -> (r: CartridgeRegion)
        ensures
            r == (CartridgeRegion { start: 0x104, end: 0x132 }),
    {
        CartridgeRegion { start: 0x104, end: 0x132 }
    }

    /// The title field: bytes 0x134 ..= 0x142.
    pub fn title() -> (r: CartridgeRegion)
        ensures
            r == (CartridgeRegion { start: 0x134, end: 0x142 }),
    {
        CartridgeRegion { start: 0x134, end: 0x142 }
    }

    /// The manufacturer code, a sub-range of the title: bytes
    /// 0x13F ..= 0x141.
    pub fn manufacturer() -> (r: CartridgeRegion)
        ensures
            r == (CartridgeRegion { start: 0x13F, end: 0x141 }),
    {
        CartridgeRegion { start: 0x13F, end: 0x141 }
    }

    /// The licensee-code field: the byte at 0x144.
    pub fn licensee_code() -> (r: CartridgeRegion)
        ensures
            r == (CartridgeRegion { start: 0x144, end: 0x144 }),
    {
        CartridgeRegion { start: 0x144, end: 0x144 }
    }

    /// The cartridge-type field: the byte at 0x147.
    pub fn cartridge_type_field() -> (r: CartridgeRegion)
        ensures
            r == (CartridgeRegion { start: 0x147, end: 0x147 }),
    {
        CartridgeRegion { start: 0x147, end: 0x147 }
    }

    /// The ROM-size field: the byte at 0x148.
    pub fn rom_size_field() -> (r: CartridgeRegion)
        ensures
            r == (CartridgeRegion { start: 0x148, end: 0x148 }),
    {
        CartridgeRegion { start: 0x148, end: 0x148 }
    }
}

/// The cartridge-type configuration a header byte names, `None` for a byte
/// outside the known table.
pub open spec fn cartridge_type_of(b: u8) -> Option<CartridgeType> {
    if b == 0x00 {
        Some(CartridgeType::ROM_ONLY)
    } else if b == 0x01 {
        Some(CartridgeType::MBC1)
    } else if b == 0x02 {
        Some(CartridgeType::MBC1_RAM)
    } else if b == 0x03 {
        Some(CartridgeType::MBC1_RAM_BATTERY)
    } else if b == 0x05 {
        Some(CartridgeType::MBC2)
    } else if b == 0x06 {
        Some(CartridgeType::MBC2_BATTERY)
    } else if b == 0x08 {
        Some(CartridgeType::ROM_RAM)
    } else if b == 0x09 {
        Some(CartridgeType::ROM_RAM_BATTERY)
    } else if b == 0x0B {
        Some(CartridgeType::MMM01)
    } else if b == 0x0C {
        Some(CartridgeType::MMM01_RAM)
    } else if b == 0x0D {
        Some(CartridgeType::MMM01_RAM_BATTERY)
    } else if b == 0x0F {
        Some(CartridgeType::MBC3_TIMER_BATTERY)
    } else if b == 0x10 {
        Some(CartridgeType::MBC3_TIMER_RAM_BATTERY)
    } else if b == 0x11 {
        Some(CartridgeType::MBC3)
    } else if b == 0x12 {
        Some(CartridgeType::MBC3_RAM)
    } else if b == 0x13 {
        Some(CartridgeType::MBC3_RAM_BATTERY)
    } else if b == 0x19 {
        Some(CartridgeType::MBC5)
    } else if b == 0x1A {
        Some(CartridgeType::MBC5_RAM)
    } else if b == 0x1B {
        Some(CartridgeType::MBC5_RAM_BATTERY)
    } else if b == 0x1C {
        Some(CartridgeType::MBC5_RUMBLE)
    } else {
        None
    }
}

/// The ROM size a header byte names, `None` for a byte outside the known
/// table.
pub open spec fn rom_size_of(b: u8) -> Option<RomSize> {
    if b == 0x00 {
        Some(RomSize::KB32)
    } else if b == 0x01 {
        Some(RomSize::KB64)
    } else if b == 0x02 {
        Some(RomSize::KB128)
    } else if b == 0x03 {
        Some(RomSize::KB256)
    } else if b == 0x04 {
        Some(RomSize::KB512)
    } else if b == 0x05 {
        Some(RomSize::MB1)
    } else if b == 0x06 {
        Some(RomSize::MB2)
    } else if b == 0x07 {
        Some(RomSize::MB4)
    } else if b == 0x52 {
        Some(RomSize::MB1_1)
    } else if b == 0x53 {
        Some(RomSize::MB1_2)
    } else if b == 0x54 {
        Some(RomSize::MB1_5)
    } else {
        None
    }
}

/// Decoded cartridge type of a byte sequence: the configuration named by
/// the byte at offset 0x147, `None` when the sequence is too short or the
/// byte is unknown.
pub open spec fn cartridge_type_spec(data: Seq<u8>) -> Option<CartridgeType> {
    if data.len() > 0x147 {
        cartridge_type_of(data[0x147])
    } else {
        None
    }
}

/// Decoded ROM size of a byte sequence: the size named by the byte at
/// offset 0x148, `None` when the sequence is too short or the byte is
/// unknown.
pub open spec fn rom_size_spec(data: Seq<u8>) -> Option<RomSize> {
    if data.len() > 0x148 {
        rom_size_of(data[0x148])
    } else {
        None
    }
}

/// An immutable byte sequence loaded once at startup; header fields are
/// read at fixed offsets and never validated.
pub struct Cartridge {
    data: Vec<u8>,
}

impl View for Cartridge {
    type V = Seq<u8>;

    closed spec fn view(&self) -> Seq<u8> {
        self.data@
    }
}

impl Cartridge {
    /// An empty cartridge; populated by one `load_rom` call.
    pub fn new() -> (cart: Cartridge)
        ensures
            cart@ == Seq::<u8>::empty(),
    {
        let cart = Cartridge { data: Vec::new() };
        proof {
            assert(cart@ =~= Seq::<u8>::empty());
        }
        cart
    }

    /// Replaces the cartridge bytes wholesale with the given sequence.
    pub fn load_rom(&mut self, data: Vec<u8>)
        ensures
            final(self)@ == data@,
    {
        self.data = data;
    }

    /// Decodes the cartridge-type header byte at offset 0x147.
    pub fn cartridge_type(&self) -> (t: Option<CartridgeType>)
        ensures
            t == cartridge_type_spec(self@),
    {
        if self.data.len() > 0x147 {
            let b = self.data[0x147];
            match b {
                0x00 => Some(CartridgeType::ROM_ONLY),
                0x01 => Some(CartridgeType::MBC1),
                0x02 => Some(CartridgeType::MBC1_RAM),
                0x03 => Some(CartridgeType::MBC1_RAM_BATTERY),
                0x05 => Some(CartridgeType::MBC2),
                0x06 => Some(CartridgeType::MBC2_BATTERY),
                0x08 => Some(CartridgeType::ROM_RAM),
                0x09 => Some(CartridgeType::ROM_RAM_BATTERY),
                0x0B => Some(CartridgeType::MMM01),
                0x0C => Some(CartridgeType::MMM01_RAM),
                0x0D => Some(CartridgeType::MMM01_RAM_BATTERY),
                0x0F => Some(CartridgeType::MBC3_TIMER_BATTERY),
                0x10 => Some(CartridgeType::MBC3_TIMER_RAM_BATTERY),
                0x11 => Some(CartridgeType::MBC3),
                0x12 => Some(CartridgeType::MBC3_RAM),
                0x13 => Some(CartridgeType::MBC3_RAM_BATTERY),
                0x19 => Some(CartridgeType::MBC5),
                0x1A => Some(CartridgeType::MBC5_RAM),
                0x1B => Some(CartridgeType::MBC5_RAM_BATTERY),
                0x1C => Some(CartridgeType::MBC5_RUMBLE),
                _ => None,
            }
        } else {
            None
        }
    }

    /// Decodes the ROM-size header byte at offset 0x148.
    pub fn rom_size(&self) -> (s: Option<RomSize>)
        ensures
            s == rom_size_spec(self@),
    {
        if self.data.len() > 0x148 {
            let b = self.data[0x148];
            match b {
                0x00 => Some(RomSize::KB32),
                0x01 => Some(RomSize::KB64),
                0x02 => Some(RomSize::KB128),
                0x03 => Some(RomSize::KB256),
                0x04 => Some(RomSize::KB512),
                0x05 => Some(RomSize::MB1),
                0x06 => Some(RomSize::MB2),
                0x07 => Some(RomSize::MB4),
                0x52 => Some(RomSize::MB1_1),
                0x53 => Some(RomSize::MB1_2),
                0x54 => Some(RomSize::MB1_5),
                _ => None,
            }
        } else {
            None
        }
    }

    /// The bytes of one fixed-offset header field, `None` when the field
    /// does not lie whole inside the loaded data.
    pub fn read_region(&self, region: CartridgeRegion) -> (bytes: Option<Vec<u8>>)
        ensures
            match bytes {
                Some(b) => {
                    &&& region.start <= region.end
                    &&& (region.end as int) < self@.len()
                    &&& b@ == self@.subrange(region.start as int, region.end as int + 1)
                },
                None => region.start > region.end || (region.end as int) >= self@.len(),
            },
    {
        if region.start > region.end || region.end as usize >= self.data.len() {
            return None;
        }
        let mut out: Vec<u8> = Vec::new();
        let mut i: usize = region.start as usize;
        while i <= region.end as usize
            invariant
                region.start as int <= i as int,
                i as int <= region.end as int + 1,
                (region.end as int) < self@.len(),
                out@ == self@.subrange(region.start as int, i as int),
            decreases region.end as int + 1 - i as int,
        {
            out.push(self.data[i]);
            proof {
                assert(out@ =~= self@.subrange(region.start as int, i as int + 1));
            }
            i = i + 1;
        }
        Some(out)
    }
}

} // verus!
