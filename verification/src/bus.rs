//! The memory bus: sixteen bits of address space, cut into ranges that do not
//! overlap, each with one owner.
//!
//! | Range           | Owner                                   |
//! |-----------------|-----------------------------------------|
//! | 0x0000 - 0x7FFF | cartridge                               |
//! | 0x8000 - 0x9FFF | graphics device, offset from 0x8000     |
//! | 0xA000 - 0xBFFF | cartridge                               |
//! | 0xC000 - 0xDFFF | work RAM                                |
//! | 0xE000 - 0xFDFF | echo: reads as zero, writes are dropped |
//! | 0xFE00 - 0xFE9F | object attributes: not implemented      |
//! | 0xFEA0 - 0xFEFF | unusable: reads as a fixed byte         |
//! | 0xFF00 - 0xFF7F | I/O registers                           |
//! | 0xFF80 - 0xFFFE | high RAM                                |
//! | 0xFFFF          | interrupt enable register               |

use vstd::prelude::*;
use crate::cart::{Cart, CartState};
use crate::fault::Fault;
use crate::io::{IoState, IO};
use crate::ppu::{GpuState, GPU};

verus! {

/// Number of bytes of work RAM.
pub const WRAM_SIZE: usize = 0x2000;

/// Number of bytes of high RAM.
pub const HRAM_SIZE: usize = 0x7F;

/// First address of video RAM.
pub const VRAM_BEGIN: u16 = 0x8000;

/// First address of work RAM.
pub const WRAM_BEGIN: u16 = 0xC000;

/// First address of high RAM.
pub const HRAM_BEGIN: u16 = 0xFF80;

/// Address of the interrupt enable register.
pub const INTERRUPT_ENABLE: u16 = 0xFFFF;

/// What a read of the unusable range returns.
pub const UNUSABLE_BYTE: u8 = 0xFF;

/// The owners of the address ranges.
#[derive(Clone, Copy, Debug, PartialEq, Eq, Structural)]
pub enum Region {
    CartRom,
    VideoRam,
    CartRam,
    WorkRam,
    Echo,
    ObjectAttributes,
    Unusable,
    Io,
    HighRam,
    InterruptEnable,
}

impl Region {
    /// First address of the range.
    pub open spec fn first(self) -> u16 {
        match self {
            Region::CartRom => 0x0000,
            Region::VideoRam => 0x8000,
            Region::CartRam => 0xA000,
            Region::WorkRam => 0xC000,
            Region::Echo => 0xE000,
            Region::ObjectAttributes => 0xFE00,
            Region::Unusable => 0xFEA0,
            Region::Io => 0xFF00,
            Region::HighRam => 0xFF80,
            Region::InterruptEnable => 0xFFFF,
        }
    }

    /// Last address of the range.
    pub open spec fn last(self) -> u16 {
        match self {
            Region::CartRom => 0x7FFF,
            Region::VideoRam => 0x9FFF,
            Region::CartRam => 0xBFFF,
            Region::WorkRam => 0xDFFF,
            Region::Echo => 0xFDFF,
            Region::ObjectAttributes => 0xFE9F,
            Region::Unusable => 0xFEFF,
            Region::Io => 0xFF7F,
            Region::HighRam => 0xFFFE,
            Region::InterruptEnable => 0xFFFF,
        }
    }

    pub open spec fn contains(self, addr: u16) -> bool {
        self.first() <= addr <= self.last()
    }

    /// The owner of `addr`.
    pub open spec fn owner(addr: u16) -> Region {
        if addr <= 0x7FFF {
            Region::CartRom
        } else if addr <= 0x9FFF {
            Region::VideoRam
        } else if addr <= 0xBFFF {
            Region::CartRam
        } else if addr <= 0xDFFF {
            Region::WorkRam
        } else if addr <= 0xFDFF {
            Region::Echo
        } else if addr <= 0xFE9F {
            Region::ObjectAttributes
        } else if addr <= 0xFEFF {
            Region::Unusable
        } else if addr <= 0xFF7F {
            Region::Io
        } else if addr <= 0xFFFE {
            Region::HighRam
        } else {
            Region::InterruptEnable
        }
    }

    /// The owner of `addr`.
    pub fn of(addr: u16) -> (r: Region)
        ensures
            r == Region::owner(addr),
            r.contains(addr),
    {
        match addr {
            0x0000..=0x7FFF => Region::CartRom,
            0x8000..=0x9FFF => Region::VideoRam,
            0xA000..=0xBFFF => Region::CartRam,
            0xC000..=0xDFFF => Region::WorkRam,
            0xE000..=0xFDFF => Region::Echo,
            0xFE00..=0xFE9F => Region::ObjectAttributes,
            0xFEA0..=0xFEFF => Region::Unusable,
            0xFF00..=0xFF7F => Region::Io,
            0xFF80..=0xFFFE => Region::HighRam,
            0xFFFF => Region::InterruptEnable,
        }
    }
}

/// Every address lies in the range of its owner and in no other range: the
/// ranges cover the address space exactly once.
pub proof fn lemma_ranges_partition(addr: u16, region: Region)
    ensures
        region.contains(addr) <==> region == Region::owner(addr),
{
}

/// What the bus and the devices behind it hold.
pub struct BusState {
    pub wram: Seq<u8>,
    pub hram: Seq<u8>,
    pub cart: CartState,
    pub io: IoState,
    pub gpu: GpuState,
    pub ie: u8,
}

impl BusState {
    /// The two RAMs and the video RAM have their fixed sizes.
    pub open spec fn wf(self) -> bool {
        &&& self.wram.len() == WRAM_SIZE
        &&& self.hram.len() == HRAM_SIZE
        &&& self.gpu.wf()
    }

    /// A bus with zeroed RAM in front of the given devices.
    pub open spec fn attach(cart: CartState, io: IoState, gpu: GpuState) -> BusState {
        BusState {
            wram: Seq::new(WRAM_SIZE as nat, |i: int| 0u8),
            hram: Seq::new(HRAM_SIZE as nat, |i: int| 0u8),
            cart,
            io,
            gpu,
            ie: 0,
        }
    }

    #[verifier::opaque]
    pub open spec fn read(self, addr: u16) -> Result<u8, Fault> {
        match Region::owner(addr) {
            Region::CartRom | Region::CartRam => self.cart.read(addr),
            Region::VideoRam => self.gpu.read((addr - VRAM_BEGIN) as u16),
            Region::WorkRam => Ok(self.wram[addr - WRAM_BEGIN]),
            Region::Echo => Ok(0),
            Region::ObjectAttributes => Ok(0),
            Region::Unusable => Ok(UNUSABLE_BYTE),
            Region::Io => Ok(self.io.read(addr)),
            Region::HighRam => Ok(self.hram[addr - HRAM_BEGIN]),
            Region::InterruptEnable => Ok(self.ie),
        }
    }

    #[verifier::opaque]
    pub open spec fn write(self, addr: u16, data: u8) -> Result<BusState, Fault> {
        match Region::owner(addr) {
            Region::CartRom | Region::CartRam => match self.cart.write(addr, data) {
                Ok(cart) => Ok(BusState { cart, ..self }),
                Err(e) => Err(e),
            },
            Region::VideoRam => match self.gpu.write((addr - VRAM_BEGIN) as u16, data) {
                Ok(gpu) => Ok(BusState { gpu, ..self }),
                Err(e) => Err(e),
            },
            Region::WorkRam => Ok(
                BusState { wram: self.wram.update(addr - WRAM_BEGIN, data), ..self },
            ),
            Region::Echo => Ok(self),
            Region::ObjectAttributes => Ok(self),
            Region::Unusable => Ok(self),
            Region::Io => Ok(BusState { io: self.io.write(addr, data), ..self }),
            Region::HighRam => Ok(
                BusState { hram: self.hram.update(addr - HRAM_BEGIN, data), ..self },
            ),
            Region::InterruptEnable => Ok(BusState { ie: data, ..self }),
        }
    }

    /// Whether a byte written to `addr` is stored and read back from there.
    pub open spec fn keeps(self, addr: u16) -> bool {
        match Region::owner(addr) {
            Region::CartRom | Region::CartRam => self.cart.loaded && addr < self.cart.rom.len(),
            Region::VideoRam | Region::WorkRam | Region::HighRam | Region::InterruptEnable => true,
            Region::Io => addr == crate::io::SERIAL_DATA || addr == crate::io::SERIAL_CONTROL
                || addr == crate::io::INTERRUPT_FLAG,
            Region::Echo | Region::ObjectAttributes | Region::Unusable => false,
        }
    }
}

/// A byte written to work RAM or to high RAM is read back from the same
/// address.
pub proof fn lemma_ram_round_trip(bus: BusState, addr: u16, data: u8)
    requires
        bus.wf(),
        Region::WorkRam.contains(addr) || Region::HighRam.contains(addr),
    ensures
        bus.write(addr, data) is Ok,
        bus.write(addr, data).unwrap().read(addr) == Ok::<u8, Fault>(data),
{
    reveal(BusState::read);
    reveal(BusState::write);
}

/// A byte written to an address that keeps what is written is read back
/// from there.
pub proof fn lemma_kept_round_trip(bus: BusState, addr: u16, data: u8)
    requires
        bus.wf(),
        bus.keeps(addr),
    ensures
        bus.write(addr, data) is Ok,
        bus.write(addr, data).unwrap().wf(),
        bus.write(addr, data).unwrap().read(addr) == Ok::<u8, Fault>(data),
{
    reveal(BusState::read);
    reveal(BusState::write);
}

/// Whatever was written before, the echo range reads as zero.
pub proof fn lemma_echo_reads_zero(bus: BusState, addr: u16)
    requires
        Region::Echo.contains(addr),
    ensures
        bus.read(addr) == Ok::<u8, Fault>(0),
        forall|data: u8| bus.write(addr, data) == Ok::<BusState, Fault>(bus),
{
    reveal(BusState::read);
    reveal(BusState::write);
}

/// A write changes what is read at no other address.
pub proof fn lemma_write_elsewhere(bus: BusState, addr: u16, data: u8, other: u16)
    requires
        bus.wf(),
        addr != other,
        bus.write(addr, data) is Ok,
    ensures
        bus.write(addr, data).unwrap().wf(),
        bus.write(addr, data).unwrap().read(other) == bus.read(other),
        bus.write(addr, data).unwrap().keeps(other) == bus.keeps(other),
{
    reveal(BusState::read);
    reveal(BusState::write);
}

/// The bus.
pub struct Bus {
    wram: [u8; 0x2000],
    hram: [u8; 0x7F],
    cart: Cart,
    io: IO,
    gpu: GPU,
    ie: u8,
}

impl View for Bus {
    type V = BusState;

    closed spec fn view(&self) -> BusState {
        BusState {
            wram: self.wram@,
            hram: self.hram@,
            cart: self.cart@,
            io: self.io@,
            gpu: self.gpu@,
            ie: self.ie,
        }
    }
}

impl Bus {
    /// Attaches the devices to a bus whose RAM is zeroed.
    pub fn new(p_cart: Cart, p_io: IO, p_gpu: GPU) -> (bus: Self)
        ensures
            bus@ == BusState::attach(p_cart@, p_io@, p_gpu@),
    {
        let bus = Self {
            wram: [0; 0x2000],
            hram: [0; 0x7F],
            cart: p_cart,
            io: p_io,
            gpu: p_gpu,
            ie: 0,
        };
        proof {
            assert(bus.wram@ =~= Seq::new(WRAM_SIZE as nat, |i: int| 0u8));
            assert(bus.hram@ =~= Seq::new(HRAM_SIZE as nat, |i: int| 0u8));
        }
        bus
    }

    /// The sizes of the RAMs are fixed.
    pub proof fn lemma_wf(&self)
        ensures
            self@.wf(),
    {
        self.gpu.lemma_wf();
    }

    /// Writes `data` to the owner of `addr`.
    pub fn write(&mut self, addr: u16, data: u8) -> (r: Result<(), Fault>)
        ensures
            match old(self)@.write(addr, data) {
                Ok(s) => r is Ok && final(self)@ == s,
                Err(e) => r == Err::<(), Fault>(e) && final(self)@ == old(self)@,
            },
    {
        proof {
            reveal(BusState::write);
        }
        match Region::of(addr) {
            Region::CartRom | Region::CartRam => self.cart.write(addr, data),
            Region::VideoRam => self.gpu.write(addr - VRAM_BEGIN, data),
            Region::WorkRam => self.wram_write(addr, data),
            Region::Echo => Ok(()),
            Region::ObjectAttributes => Ok(()),
            Region::Unusable => Ok(()),
            Region::Io => {
                self.io_write(addr, data);
                Ok(())
            },
            Region::HighRam => self.hram_write(addr, data),
            Region::InterruptEnable => {
                self.ie = data;
                Ok(())
            },
        }
    }

    /// Reads from the owner of `addr`.
    pub fn read(&mut self, addr: u16) -> (r: Result<u8, Fault>)
        ensures
            r == old(self)@.read(addr),
            final(self)@ == old(self)@,
    {
        proof {
            reveal(BusState::read);
        }
        match Region::of(addr) {
            Region::CartRom | Region::CartRam => self.cart.read(addr),
            Region::VideoRam => self.gpu.read_vram(addr - VRAM_BEGIN),
            Region::WorkRam => self.wram_read(addr),
            Region::Echo => Ok(0),
            Region::ObjectAttributes => Ok(0),
            Region::Unusable => Ok(UNUSABLE_BYTE),
            Region::Io => Ok(self.io_read(addr)),
            Region::HighRam => self.hram_read(addr),
            Region::InterruptEnable => Ok(self.ie),
        }
    }

    /// Writes to work RAM. An address outside of it is refused.
    pub fn wram_write(&mut self, addr: u16, data: u8) -> (r: Result<(), Fault>)
        ensures
            Region::WorkRam.contains(addr) ==> r is Ok && final(self)@ == (BusState {
                wram: old(self)@.wram.update(addr - WRAM_BEGIN, data),
                ..old(self)@
            }),
            !Region::WorkRam.contains(addr) ==> r == Err::<(), Fault>(
                Fault::AddressRangeViolation { address: addr },
            ) && final(self)@ == old(self)@,
    {
        if addr < WRAM_BEGIN || (addr - WRAM_BEGIN) as usize >= WRAM_SIZE {
            return Err(Fault::AddressRangeViolation { address: addr });
        }
        let new_addr: u16 = addr - WRAM_BEGIN;
        self.wram[new_addr as usize] = data;
        Ok(())
    }

    /// Reads from work RAM. An address outside of it is refused.
    pub fn wram_read(&mut self, addr: u16) -> (r: Result<u8, Fault>)
        ensures
            r == if Region::WorkRam.contains(addr) {
                Ok::<u8, Fault>(old(self)@.wram[addr - WRAM_BEGIN])
            } else {
                Err(Fault::AddressRangeViolation { address: addr })
            },
            final(self)@ == old(self)@,
    {
        if addr < WRAM_BEGIN || (addr - WRAM_BEGIN) as usize >= WRAM_SIZE {
            return Err(Fault::AddressRangeViolation { address: addr });
        }
        let new_addr: u16 = addr - WRAM_BEGIN;
        Ok(self.wram[new_addr as usize])
    }

    /// Writes to high RAM. An address outside of it is refused.
    pub fn hram_write(&mut self, addr: u16, data: u8) -> (r: Result<(), Fault>)
        ensures
            Region::HighRam.contains(addr) ==> r is Ok && final(self)@ == (BusState {
                hram: old(self)@.hram.update(addr - HRAM_BEGIN, data),
                ..old(self)@
            }),
            !Region::HighRam.contains(addr) ==> r == Err::<(), Fault>(
                Fault::AddressRangeViolation { address: addr },
            ) && final(self)@ == old(self)@,
    {
        if addr < HRAM_BEGIN || (addr - HRAM_BEGIN) as usize >= HRAM_SIZE {
            return Err(Fault::AddressRangeViolation { address: addr });
        }
        let new_addr: u16 = addr - HRAM_BEGIN;
        self.hram[new_addr as usize] = data;
        Ok(())
    }

    /// Reads from high RAM. An address outside of it is refused.
    pub fn hram_read(&mut self, addr: u16) -> (r: Result<u8, Fault>)
        ensures
            r == if Region::HighRam.contains(addr) {
                Ok::<u8, Fault>(old(self)@.hram[addr - HRAM_BEGIN])
            } else {
                Err(Fault::AddressRangeViolation { address: addr })
            },
            final(self)@ == old(self)@,
    {
        if addr < HRAM_BEGIN || (addr - HRAM_BEGIN) as usize >= HRAM_SIZE {
            return Err(Fault::AddressRangeViolation { address: addr });
        }
        let new_addr: u16 = addr - HRAM_BEGIN;
        Ok(self.hram[new_addr as usize])
    }

    /// Hands a write to the I/O registers as it is.
    pub fn io_write(&mut self, addr: u16, val: u8)
        ensures
            final(self)@ == (BusState { io: old(self)@.io.write(addr, val), ..old(self)@ }),
    {
        self.io.write(addr, val);
    }

    /// Hands a read to the I/O registers as it is.
    pub fn io_read(&mut self, addr: u16) -> (r: u8)
        ensures
            r == old(self)@.io.read(addr),
            final(self)@ == old(self)@,
    {
        self.io.read(addr)
    }

    /// The interrupt enable register.
    pub fn get_ie_set(&mut self) -> (r: u8)
        ensures
            r == old(self)@.ie,
            final(self)@ == old(self)@,
    {
        self.ie
    }
}

} // verus!
