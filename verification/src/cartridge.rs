//! Cartridge: the immutable ROM image plus the metadata its header declares
//! (title, cartridge-type code, ROM-size code, RAM-size code).

use vstd::prelude::*;

verus! {

/// Why a byte image was refused as a cartridge.
#[derive(Debug, Clone, Copy, PartialEq, Eq, Structural)]
pub enum CartridgeError {
    /// The image is too short to contain the $0100-$014F header.
    TooSmall,
}

impl CartridgeError {
    pub fn message(&self) -> (r: &'static str)
        ensures
            r@ == "ROM file is too small to contain a valid header."@,
    {
        "ROM file is too small to contain a valid header."
    }
}

pub struct Cartridge {
    pub raw_data: Vec<u8>,
    pub title: String,
    pub cartridge_type_code: u8,
    pub rom_size_code: u8,
    pub ram_size_code: u8,
}

/// Number of title bytes before the first NUL in the $0134-$0143 field.
pub open spec fn spec_title_len(rom: Seq<u8>) -> int
    decreases 16int,
{
    spec_title_len_from(rom, 0)
}

/// Helper for `spec_title_len`, scanning from offset `i` of the title field.
pub open spec fn spec_title_len_from(rom: Seq<u8>, i: int) -> int
    decreases 16 - i,
{
    if i >= 16 {
        16
    } else if rom[0x0134 + i] == 0 {
        i
    } else {
        spec_title_len_from(rom, i + 1)
    }
}

/// Battery-bearing cartridge-type codes.
pub open spec fn spec_has_battery(code: u8) -> bool {
    code == 0x03 || code == 0x06 || code == 0x09 || code == 0x0D || code == 0x0F || code == 0x10
        || code == 0x13 || code == 0x1B || code == 0x1E || code == 0x22 || code == 0xFF
}

impl Cartridge {
    /// The image is big enough for the header and the stored codes are the
    /// header's bytes.
    pub open spec fn wf(self) -> bool {
        &&& self.raw_data@.len() >= 0x150
        &&& self.cartridge_type_code == self.raw_data@[0x0147]
        &&& self.rom_size_code == self.raw_data@[0x0148]
        &&& self.ram_size_code == self.raw_data@[0x0149]
    }

    /// Parse a raw cartridge image: refused if it cannot hold the header,
    /// otherwise the bytes are kept whole and the metadata is read from them.
    pub fn from_bytes(raw_data: Vec<u8>) -> (r: Result<Cartridge, CartridgeError>)
        ensures
            raw_data@.len() < 0x150 <==> (r matches Err(e) && e == CartridgeError::TooSmall),
            r matches Ok(c) ==> {
                &&& c.wf()
                &&& c.raw_data@ == raw_data@
                &&& c.title@.len() <= spec_title_len(raw_data@)
                &&& (forall|j: int|
                    0 <= j < spec_title_len(raw_data@) ==> #[trigger] raw_data@[0x0134 + j]
                        < 0x80) ==> {
                    &&& c.title@.len() == spec_title_len(raw_data@)
                    &&& forall|j: int|
                        0 <= j < c.title@.len() ==> c.title@[j] == raw_data@[0x0134 + j] as char
                }
            },
    {
        if raw_data.len() < 0x150 {
            return Err(CartridgeError::TooSmall);
        }
        let mut title_bytes: Vec<u8> = Vec::new();
        let mut i: usize = 0;
        while i < 16 && raw_data[0x0134 + i] != 0
            invariant
                i <= 16,
                raw_data@.len() >= 0x150,
                title_bytes@.len() == i,
                forall|j: int| 0 <= j < i ==> #[trigger] raw_data@[0x0134 + j] != 0,
                forall|j: int| 0 <= j < i ==> #[trigger] title_bytes@[j] == raw_data@[0x0134 + j],
            decreases 16 - i,
        {
            let b = raw_data[0x0134 + i];
            title_bytes.push(b);
            i = i + 1;
        }
        proof {
            lemma_title_len_from_found(raw_data@, i as int);
        }
        let title = lossy_string_of_bytes(&title_bytes);
        let cartridge_type_code = raw_data[0x0147];
        let rom_size_code = raw_data[0x0148];
        let ram_size_code = raw_data[0x0149];
        Ok(
            Cartridge {
                raw_data,
                title,
                cartridge_type_code,
                rom_size_code,
                ram_size_code,
            },
        )
    }

    /// Whether the cartridge keeps its external RAM (and RTC) across power
    /// cycles.
    pub fn has_battery(&self) -> (r: bool)
        ensures
            r == spec_has_battery(self.cartridge_type_code),
    {
        match self.cartridge_type_code {
            0x03 | 0x06 | 0x09 | 0x0D | 0x0F | 0x10 | 0x13 | 0x1B | 0x1E | 0x22 | 0xFF => true,
            _ => false,
        }
    }

    /// Human-readable name of the cartridge-type code.
    pub fn cartridge_type_name(&self) -> (r: String)
        ensures
            self.cartridge_type_code == 0x00 ==> r@ == "ROM ONLY"@,
            self.cartridge_type_code == 0x01 ==> r@ == "MBC1"@,
            self.cartridge_type_code == 0x02 ==> r@ == "MBC1+RAM"@,
            self.cartridge_type_code == 0x03 ==> r@ == "MBC1+RAM+BATTERY"@,
            self.cartridge_type_code == 0x05 ==> r@ == "MBC2"@,
            self.cartridge_type_code == 0x06 ==> r@ == "MBC2+BATTERY"@,
            self.cartridge_type_code == 0x08 ==> r@ == "ROM+RAM"@,
            self.cartridge_type_code == 0x09 ==> r@ == "ROM+RAM+BATTERY"@,
            self.cartridge_type_code == 0x0B ==> r@ == "MMM01"@,
            self.cartridge_type_code == 0x0C ==> r@ == "MMM01+RAM"@,
            self.cartridge_type_code == 0x0D ==> r@ == "MMM01+RAM+BATTERY"@,
            self.cartridge_type_code == 0x0F ==> r@ == "MBC3+TIMER+BATTERY"@,
            self.cartridge_type_code == 0x10 ==> r@ == "MBC3+TIMER+RAM+BATTERY"@,
            self.cartridge_type_code == 0x11 ==> r@ == "MBC3"@,
            self.cartridge_type_code == 0x12 ==> r@ == "MBC3+RAM"@,
            self.cartridge_type_code == 0x13 ==> r@ == "MBC3+RAM+BATTERY"@,
            self.cartridge_type_code == 0x19 ==> r@ == "MBC5"@,
            self.cartridge_type_code == 0x1A ==> r@ == "MBC5+RAM"@,
            self.cartridge_type_code == 0x1B ==> r@ == "MBC5+RAM+BATTERY"@,
            self.cartridge_type_code == 0x1C ==> r@ == "MBC5+RUMBLE"@,
            self.cartridge_type_code == 0x1D ==> r@ == "MBC5+RUMBLE+RAM"@,
            self.cartridge_type_code == 0x1E ==> r@ == "MBC5+RUMBLE+RAM+BATTERY"@,
            self.cartridge_type_code == 0x20 ==> r@ == "MBC6"@,
            self.cartridge_type_code == 0x22 ==> r@ == "MBC7+SENSOR+RUMBLE+RAM+BATTERY"@,
            self.cartridge_type_code == 0xFC ==> r@ == "POCKET CAMERA"@,
            self.cartridge_type_code == 0xFD ==> r@ == "BANDAI TAMA5"@,
            self.cartridge_type_code == 0xFE ==> r@ == "HuC3"@,
            self.cartridge_type_code == 0xFF ==> r@ == "HuC1+RAM+BATTERY"@,
            !(self.cartridge_type_code == 0x00 || 0x01 <= self.cartridge_type_code <= 0x03
                || 0x05 <= self.cartridge_type_code <= 0x06 || 0x08
                <= self.cartridge_type_code <= 0x0D || 0x0F <= self.cartridge_type_code <= 0x13
                || 0x19 <= self.cartridge_type_code <= 0x1E || self.cartridge_type_code == 0x20
                || self.cartridge_type_code == 0x22 || self.cartridge_type_code >= 0xFC) ==> r@
                == "UNKNOWN"@,
    {
        let s: &'static str = match self.cartridge_type_code {
            0x00 => "ROM ONLY",
            0x01 => "MBC1",
            0x02 => "MBC1+RAM",
            0x03 => "MBC1+RAM+BATTERY",
            0x05 => "MBC2",
            0x06 => "MBC2+BATTERY",
            0x08 => "ROM+RAM",
            0x09 => "ROM+RAM+BATTERY",
            0x0B => "MMM01",
            0x0C => "MMM01+RAM",
            0x0D => "MMM01+RAM+BATTERY",
            0x0F => "MBC3+TIMER+BATTERY",
            0x10 => "MBC3+TIMER+RAM+BATTERY",
            0x11 => "MBC3",
            0x12 => "MBC3+RAM",
            0x13 => "MBC3+RAM+BATTERY",
            0x19 => "MBC5",
            0x1A => "MBC5+RAM",
            0x1B => "MBC5+RAM+BATTERY",
            0x1C => "MBC5+RUMBLE",
            0x1D => "MBC5+RUMBLE+RAM",
            0x1E => "MBC5+RUMBLE+RAM+BATTERY",
            0x20 => "MBC6",
            0x22 => "MBC7+SENSOR+RUMBLE+RAM+BATTERY",
            0xFC => "POCKET CAMERA",
            0xFD => "BANDAI TAMA5",
            0xFE => "HuC3",
            0xFF => "HuC1+RAM+BATTERY",
            _ => "UNKNOWN",
        };
        String::from_str(s)
    }

    /// Human-readable ROM size: 32 KiB doubled per unit of the size code.
    pub fn rom_size_str(&self) -> (r: String)
        ensures
            self.rom_size_code == 0x00 ==> r@ == "32 KB"@,
            self.rom_size_code == 0x01 ==> r@ == "64 KB"@,
            self.rom_size_code == 0x02 ==> r@ == "128 KB"@,
            self.rom_size_code == 0x03 ==> r@ == "256 KB"@,
            self.rom_size_code == 0x04 ==> r@ == "512 KB"@,
            self.rom_size_code == 0x05 ==> r@ == "1024 KB"@,
            self.rom_size_code == 0x06 ==> r@ == "2048 KB"@,
            self.rom_size_code == 0x07 ==> r@ == "4096 KB"@,
            self.rom_size_code == 0x08 ==> r@ == "8192 KB"@,
            self.rom_size_code > 0x08 ==> r@ == "Unknown code"@,
    {
        let s: &'static str = match self.rom_size_code {
            0x00 => "32 KB",
            0x01 => "64 KB",
            0x02 => "128 KB",
            0x03 => "256 KB",
            0x04 => "512 KB",
            0x05 => "1024 KB",
            0x06 => "2048 KB",
            0x07 => "4096 KB",
            0x08 => "8192 KB",
            _ => "Unknown code",
        };
        String::from_str(s)
    }

    /// Human-readable external-RAM size for the header's RAM-size code.
    pub fn ram_size_str(&self) -> (r: String)
        ensures
            self.ram_size_code == 0x00 ==> r@ == "None"@,
            self.ram_size_code == 0x01 ==> r@ == "2 KB (Unofficial)"@,
            self.ram_size_code == 0x02 ==> r@ == "8 KB"@,
            self.ram_size_code == 0x03 ==> r@ == "32 KB (4 banks of 8KB)"@,
            self.ram_size_code == 0x04 ==> r@ == "128 KB (16 banks of 8KB)"@,
            self.ram_size_code == 0x05 ==> r@ == "64 KB (8 banks of 8KB)"@,
            self.ram_size_code > 0x05 ==> r@ == "Unknown code"@,
    {
        let s: &'static str = match self.ram_size_code {
            0x00 => "None",
            0x01 => "2 KB (Unofficial)",
            0x02 => "8 KB",
            0x03 => "32 KB (4 banks of 8KB)",
            0x04 => "128 KB (16 banks of 8KB)",
            0x05 => "64 KB (8 banks of 8KB)",
            _ => "Unknown code",
        };
        String::from_str(s)
    }
}

/// Scanning stopped at `i` either at a NUL or at the field's end, so the
/// title length is `i`.
proof fn lemma_title_len_from_found(rom: Seq<u8>, i: int)
    requires
        0 <= i <= 16,
        forall|j: int| 0 <= j < i ==> #[trigger] rom[0x0134 + j] != 0,
        i < 16 ==> rom[0x0134 + i] == 0,
    ensures
        spec_title_len(rom) == i,
    decreases i,
{
    lemma_title_scan(rom, 0, i);
}

/// From any start at or before the stop point, the scan ends at the stop
/// point.
proof fn lemma_title_scan(rom: Seq<u8>, k: int, i: int)
    requires
        0 <= k <= i <= 16,
        forall|j: int| 0 <= j < i ==> #[trigger] rom[0x0134 + j] != 0,
        i < 16 ==> rom[0x0134 + i] == 0,
    ensures
        spec_title_len_from(rom, k) == i,
    decreases 16 - k,
{
    if k < i {
        lemma_title_scan(rom, k + 1, i);
    }
}

/// Relies on `String::from_utf8_lossy`: ASCII bytes decode one character per
/// byte, each the character with that byte's code.
#[verifier::external_body]
fn lossy_string_of_bytes(bytes: &Vec<u8>) -> (r: String)
    ensures
        r@.len() <= bytes@.len(),
        (forall|i: int| 0 <= i < bytes@.len() ==> bytes@[i] < 0x80) ==> {
            &&& r@.len() == bytes@.len()
            &&& forall|i: int| 0 <= i < bytes@.len() ==> r@[i] == bytes@[i] as char
        },
{
    String::from_utf8_lossy(bytes.as_slice()).into_owned()
}

} // verus!
