//! The cartridge: the program image and what its header says.

use vstd::prelude::*;
use vstd::string::StringSliceAdditionalSpecFns;
use vstd::utf8::{encode_utf8, valid_utf8};
use crate::fault::Fault;

verus! {

/// First byte of the title in the header.
pub const TITLE_BEGIN: usize = 0x0134;

/// One past the last byte of the title.
pub const TITLE_END: usize = 0x0143;

/// One past the last byte over which the header checksum runs.
pub const CHECKSUM_END: usize = 0x014D;

/// Length of the shortest image that holds a whole header.
pub const HEADER_END: usize = 0x0150;

/// Why an image was not accepted.
#[derive(Clone, Copy, Debug, PartialEq, Eq, Structural)]
pub enum LoadError {
    /// The image ends before its header does.
    Truncated,
    /// The title bytes are not valid UTF-8.
    TitleNotText,
}

/// The header checksum of the bytes of `rom` from the title up to, not
/// including, index `end`: starting from zero, each byte and one more are
/// subtracted, modulo 256.
pub open spec fn checksum_upto(rom: Seq<u8>, end: int) -> u8
    decreases end,
{
    if end <= TITLE_BEGIN {
        0
    } else {
        ((checksum_upto(rom, end - 1) - rom[end - 1] - 1) % 256) as u8
    }
}

/// The header checksum of an image.
pub open spec fn header_checksum(rom: Seq<u8>) -> u8 {
    checksum_upto(rom, CHECKSUM_END as int)
}

/// What a cartridge holds.
pub struct CartState {
    pub rom: Seq<u8>,
    pub loaded: bool,
    pub title: Seq<char>,
    pub rom_size: u8,
    pub ram_size: u8,
    pub dest_code: u8,
    pub lic_code: u8,
    pub version: u8,
    pub checksum: u16,
}

impl CartState {
    /// A cartridge into which nothing was loaded.
    pub open spec fn empty() -> CartState {
        CartState {
            rom: Seq::empty(),
            loaded: false,
            title: Seq::empty(),
            rom_size: 0,
            ram_size: 0,
            dest_code: 0,
            lic_code: 0,
            version: 0,
            checksum: 0,
        }
    }

    pub open spec fn read(self, addr: u16) -> Result<u8, Fault> {
        if !self.loaded {
            Err(Fault::UnloadedCartridgeAccess)
        } else if addr >= self.rom.len() {
            Err(Fault::AddressRangeViolation { address: addr })
        } else {
            Ok(self.rom[addr as int])
        }
    }

    pub open spec fn write(self, addr: u16, data: u8) -> Result<CartState, Fault> {
        if !self.loaded {
            Err(Fault::UnloadedCartridgeAccess)
        } else if addr >= self.rom.len() {
            Err(Fault::AddressRangeViolation { address: addr })
        } else {
            Ok(CartState { rom: self.rom.update(addr as int, data), ..self })
        }
    }

    /// Whether an image of this content is accepted.
    pub open spec fn acceptable(rom: Seq<u8>) -> Result<(), LoadError> {
        if rom.len() < HEADER_END {
            Err(LoadError::Truncated)
        } else if !valid_utf8(rom.subrange(TITLE_BEGIN as int, TITLE_END as int)) {
            Err(LoadError::TitleNotText)
        } else {
            Ok(())
        }
    }

    /// Whether the header fields are those that `self.rom` spells out.
    pub open spec fn header_read(self) -> bool {
        &&& self.rom.len() >= HEADER_END
        &&& encode_utf8(self.title) == self.rom.subrange(TITLE_BEGIN as int, TITLE_END as int)
        &&& self.ram_size == self.rom[0x0148]
        &&& self.rom_size == self.rom[0x0149]
        &&& self.dest_code == self.rom[0x014A]
        &&& self.lic_code == self.rom[0x014B]
        &&& self.version == self.rom[0x014C]
        &&& self.checksum == header_checksum(self.rom)
    }

    /// Whether the checksum computed over the header is the one stored in it.
    pub open spec fn checksum_passed(self) -> bool {
        self.rom.len() > CHECKSUM_END && self.checksum == self.rom[CHECKSUM_END as int]
    }
}

/// The cartridge.
pub struct Cart {
    rom: Vec<u8>,
    cartloaded: bool,
    title: String,
    rom_size: u8,
    ram_size: u8,
    dest_code: u8,
    lic_code: u8,
    version: u8,
    checksum: u16,
}

impl View for Cart {
    type V = CartState;

    closed spec fn view(&self) -> CartState {
        CartState {
            rom: self.rom@,
            loaded: self.cartloaded,
            title: self.title@,
            rom_size: self.rom_size,
            ram_size: self.ram_size,
            dest_code: self.dest_code,
            lic_code: self.lic_code,
            version: self.version,
            checksum: self.checksum,
        }
    }
}

/// Calls `core::str::from_utf8`. Its contract is taken from the
/// documentation of that function and is not proved here: the call succeeds
/// on the byte sequences that are valid UTF-8 and on no others, and the text
/// that it returns is the one that the very same bytes encode.
#[verifier::external_body]
fn utf8_text(bytes: &[u8]) -> (r: Option<&str>)
    ensures
        r is Some <==> valid_utf8(bytes@),
        r matches Some(s) ==> s.spec_bytes() == bytes@,
{
    match core::str::from_utf8(bytes) {
        Ok(text) => Some(text),
        Err(_) => None,
    }
}

/// Computes the header checksum of `rom`.
fn compute_header_checksum(rom: &Vec<u8>) -> (sum: u8)
    requires
        rom.len() >= CHECKSUM_END,
    ensures
        sum == header_checksum(rom@),
{
    let mut sum: u8 = 0;
    let mut i: usize = TITLE_BEGIN;
    while i < CHECKSUM_END
        invariant
            TITLE_BEGIN <= i <= CHECKSUM_END,
            rom.len() >= CHECKSUM_END,
            sum == checksum_upto(rom@, i as int),
        decreases CHECKSUM_END - i,
    {
        let val: u8 = rom[i];
        proof {
            assert(checksum_upto(rom@, i + 1) == ((sum - val - 1) % 256) as u8);
        }
        sum = sum.wrapping_sub(val).wrapping_sub(1);
        i += 1;
    }
    sum
}

impl Cart {
    /// A cartridge into which nothing was loaded yet.
    pub fn new() -> (c: Cart)
        ensures
            c@ == CartState::empty(),
    {
        Cart {
            rom: Vec::new(),
            cartloaded: false,
            title: String::new(),
            rom_size: 0,
            ram_size: 0,
            dest_code: 0,
            lic_code: 0,
            version: 0,
            checksum: 0,
        }
    }

    /// Appends `image` to the bytes loaded so far and reads the header of the
    /// whole. An image that is refused leaves the cartridge as it was.
    pub fn load_rom(&mut self, image: Vec<u8>) -> (r: Result<(), LoadError>)
        ensures
            r == CartState::acceptable(old(self)@.rom + image@),
            r is Err ==> final(self)@ == old(self)@,
            r is Ok ==> {
                &&& final(self)@.rom == old(self)@.rom + image@
                &&& final(self)@.loaded
                &&& final(self)@.header_read()
            },
    {
        let before: usize = self.rom.len();
        let mut image = image;
        if image.len() >= HEADER_END || before >= HEADER_END - image.len() {
        } else {
            return Err(LoadError::Truncated);
        }
        let ghost old_rom = self.rom@;
        let ghost added = image@;
        self.rom.append(&mut image);
        assert(self.rom@ == old_rom + added);
        match self.load_header() {
            Ok(()) => {
                self.cartloaded = true;
                Ok(())
            },
            Err(e) => {
                self.rom.truncate(before);
                assert(self.rom@ == old_rom);
                Err(e)
            },
        }
    }

    /// Reads the header fields out of the image.
    fn load_header(&mut self) -> (r: Result<(), LoadError>)
        requires
            old(self).rom.len() >= HEADER_END,
        ensures
            r == CartState::acceptable(old(self)@.rom),
            r is Err ==> final(self)@ == old(self)@,
            r is Ok ==> {
                &&& final(self)@.rom == old(self)@.rom
                &&& final(self)@.loaded == old(self)@.loaded
                &&& final(self)@.header_read()
            },
    {
        let title_bytes = vstd::slice::slice_subrange(self.rom.as_slice(), TITLE_BEGIN, TITLE_END);
        let title: String = match utf8_text(title_bytes) {
            Some(text) => text.to_owned(),
            None => {
                return Err(LoadError::TitleNotText);
            },
        };
        let sum: u8 = compute_header_checksum(&self.rom);
        self.title = title;
        self.ram_size = self.rom[0x0148];
        self.rom_size = self.rom[0x0149];
        self.dest_code = self.rom[0x014A];
        self.lic_code = self.rom[0x014B];
        self.version = self.rom[0x014C];
        self.checksum = sum as u16;
        Ok(())
    }

    pub fn read(&mut self, addr: u16) -> (r: Result<u8, Fault>)
        ensures
            r == old(self)@.read(addr),
            final(self)@ == old(self)@,
    {
        if !self.cartloaded {
            return Err(Fault::UnloadedCartridgeAccess);
        }
        if addr as usize >= self.rom.len() {
            return Err(Fault::AddressRangeViolation { address: addr });
        }
        Ok(self.rom[addr as usize])
    }

    pub fn write(&mut self, addr: u16, data: u8) -> (r: Result<(), Fault>)
        ensures
            match old(self)@.write(addr, data) {
                Ok(s) => r is Ok && final(self)@ == s,
                Err(e) => r == Err::<(), Fault>(e) && final(self)@ == old(self)@,
            },
    {
        if !self.cartloaded {
            return Err(Fault::UnloadedCartridgeAccess);
        }
        if addr as usize >= self.rom.len() {
            return Err(Fault::AddressRangeViolation { address: addr });
        }
        self.rom[addr as usize] = data;
        Ok(())
    }

    /// Whether an image was loaded.
    pub fn is_loaded(&self) -> (r: bool)
        ensures
            r == self@.loaded,
    {
        self.cartloaded
    }

    /// The title in the header.
    pub fn title(&self) -> (r: &String)
        ensures
            r@ == self@.title,
    {
        &self.title
    }

    pub fn rom_size(&self) -> (r: u8)
        ensures
            r == self@.rom_size,
    {
        self.rom_size
    }

    pub fn ram_size(&self) -> (r: u8)
        ensures
            r == self@.ram_size,
    {
        self.ram_size
    }

    pub fn dest_code(&self) -> (r: u8)
        ensures
            r == self@.dest_code,
    {
        self.dest_code
    }

    pub fn lic_code(&self) -> (r: u8)
        ensures
            r == self@.lic_code,
    {
        self.lic_code
    }

    pub fn version(&self) -> (r: u8)
        ensures
            r == self@.version,
    {
        self.version
    }

    /// The checksum computed over the header when the image was loaded.
    pub fn checksum(&self) -> (r: u16)
        ensures
            r == self@.checksum,
    {
        self.checksum
    }

    /// Whether the checksum computed over the header is the one stored in it.
    pub fn checksum_passed(&self) -> (r: bool)
        ensures
            r == self@.checksum_passed(),
    {
        self.rom.len() > CHECKSUM_END && self.checksum == self.rom[CHECKSUM_END] as u16
    }
}

} // verus!
