//! The 16-bit address space: cartridge ROM banks behind a bank-switching
//! controller, and the working-RAM half of the map.
//!
//! Every read and write of the machine goes through [`Memory::read`] and
//! [`Memory::write`].  Writes into the low (cartridge) half never store a
//! byte; depending on the address range and the cartridge's controller kind
//! they either select the active ROM bank or are ignored.  The upper half is
//! backed by one flat byte vector, with the `0xE000..=0xFDFF` window
//! mirroring `0xC000..=0xDDFF` and a write to the divider register forcing
//! it to zero.
//!
//! External cartridge RAM (`0xA000..=0xBFFF`) and the ROM/RAM mode-select
//! range are acknowledged but not implemented: reads of external RAM return
//! the open-bus value `0xFF`, so that every address stays defined, and
//! writes that would exercise such a feature change nothing but latch
//! [`Cartridge::unsupported_write`], which the host checks to fail fast.

use vstd::prelude::*;

verus! {

/// The cartridge bank-controller families a header byte can announce.
#[derive(Clone, Copy, Debug, PartialEq, Eq, Structural)]
pub enum MBC {
    MBC1,
    MBC2,
    MBC3,
    MBC5,
    MMM01,
    HuC1,
    HuC3,
}

/// What the cartridge-kind header byte says about the cartridge: which
/// bank controller it carries, if any, and which extras are present.
#[derive(Clone, Copy, Debug)]
pub struct CartridgeKind {
    pub mbc: Option<MBC>,
    pub ram: bool,
    pub battery: bool,
    pub timer: bool,
    pub rumble: bool,
}

/// The header bytes that name a supported cartridge configuration.
pub open spec fn valid_kind_code(code: u8) -> bool {
    ||| code == 0x00
    ||| (0x01 <= code && code <= 0x03)
    ||| (0x05 <= code && code <= 0x06)
    ||| (0x08 <= code && code <= 0x09)
    ||| (0x0B <= code && code <= 0x0D)
    ||| (0x0F <= code && code <= 0x13)
    ||| (0x19 <= code && code <= 0x1E)
    ||| code == 0xFE
    ||| code == 0xFF
}

/// The cartridge configuration that the header byte `code` announces.
pub open spec fn kind_of_code(code: u8) -> CartridgeKind {
    if code == 0x00 || (0x08 <= code && code <= 0x09) {
        CartridgeKind {
            mbc: None,
            ram: code >= 0x08,
            battery: code == 0x09,
            timer: false,
            rumble: false,
        }
    } else if 0x01 <= code && code <= 0x03 {
        CartridgeKind {
            mbc: Some(MBC::MBC1),
            ram: code >= 0x02,
            battery: code == 0x03,
            timer: false,
            rumble: false,
        }
    } else if 0x05 <= code && code <= 0x06 {
        CartridgeKind {
            mbc: Some(MBC::MBC2),
            ram: false,
            battery: code == 0x06,
            timer: false,
            rumble: false,
        }
    } else if 0x0B <= code && code <= 0x0D {
        CartridgeKind {
            mbc: Some(MBC::MMM01),
            ram: code >= 0x0C,
            battery: code == 0x0D,
            timer: false,
            rumble: false,
        }
    } else if 0x0F <= code && code <= 0x13 {
        CartridgeKind {
            mbc: Some(MBC::MBC3),
            ram: code == 0x10 || code >= 0x12,
            battery: code <= 0x10 || code == 0x13,
            timer: code <= 0x10,
            rumble: false,
        }
    } else if 0x19 <= code && code <= 0x1E {
        CartridgeKind {
            mbc: Some(MBC::MBC5),
            ram: code != 0x19 && code != 0x1C,
            battery: code == 0x1B || code == 0x1E,
            timer: false,
            rumble: code >= 0x1C,
        }
    } else if code == 0xFE {
        CartridgeKind {
            mbc: Some(MBC::HuC3),
            ram: false,
            battery: false,
            timer: false,
            rumble: false,
        }
    } else {
        CartridgeKind {
            mbc: Some(MBC::HuC1),
            ram: true,
            battery: true,
            timer: false,
            rumble: false,
        }
    }
}

impl CartridgeKind {
    /// Decodes the cartridge-kind header byte.
    fn from_code(code: u8) -> (r: CartridgeKind)
        requires
            valid_kind_code(code),
        ensures
            r == kind_of_code(code),
    {
        if code == 0x00 || (0x08 <= code && code <= 0x09) {
            CartridgeKind {
                mbc: None,
                ram: code >= 0x08,
                battery: code == 0x09,
                timer: false,
                rumble: false,
            }
        } else if 0x01 <= code && code <= 0x03 {
            CartridgeKind {
                mbc: Some(MBC::MBC1),
                ram: code >= 0x02,
                battery: code == 0x03,
                timer: false,
                rumble: false,
            }
        } else if 0x05 <= code && code <= 0x06 {
            CartridgeKind {
                mbc: Some(MBC::MBC2),
                ram: false,
                battery: code == 0x06,
                timer: false,
                rumble: false,
            }
        } else if 0x0B <= code && code <= 0x0D {
            CartridgeKind {
                mbc: Some(MBC::MMM01),
                ram: code >= 0x0C,
                battery: code == 0x0D,
                timer: false,
                rumble: false,
            }
        } else if 0x0F <= code && code <= 0x13 {
            CartridgeKind {
                mbc: Some(MBC::MBC3),
                ram: code == 0x10 || code >= 0x12,
                battery: code <= 0x10 || code == 0x13,
                timer: code <= 0x10,
                rumble: false,
            }
        } else if 0x19 <= code && code <= 0x1E {
            CartridgeKind {
                mbc: Some(MBC::MBC5),
                ram: code != 0x19 && code != 0x1C,
                battery: code == 0x1B || code == 0x1E,
                timer: false,
                rumble: code >= 0x1C,
            }
        } else if code == 0xFE {
            CartridgeKind {
                mbc: Some(MBC::HuC3),
                ram: false,
                battery: false,
                timer: false,
                rumble: false,
            }
        } else {
            CartridgeKind {
                mbc: Some(MBC::HuC1),
                ram: true,
                battery: true,
                timer: false,
                rumble: false,
            }
        }
    }
}

/// Whether `code` names a supported cartridge configuration; the runtime
/// counterpart of [`valid_kind_code`], for loaders that must reject a ROM
/// before building a cartridge around it.
pub fn is_valid_kind_code(code: u8) -> (r: bool)
    ensures
        r == valid_kind_code(code),
{
    code == 0x00 || (0x01 <= code && code <= 0x03) || (0x05 <= code && code <= 0x06) || (0x08
        <= code && code <= 0x09) || (0x0B <= code && code <= 0x0D) || (0x0F <= code && code
        <= 0x13) || (0x19 <= code && code <= 0x1E) || code == 0xFE || code == 0xFF
}

/// The cartridge image: its fixed-size ROM banks, the decoded kind byte, and
/// which non-zero bank the switchable window currently shows.  All
/// bank-switching goes through [`Memory::write`].
pub struct Cartridge {
    pub banks: Vec<Vec<u8>>,
    pub kind: CartridgeKind,
    pub active_bank: u8,
    /// Latched when a write touches a cartridge feature this model leaves
    /// unimplemented (external-RAM enable, ROM/RAM mode select, meta bank
    /// switching).  The host checks it and fails fast rather than letting
    /// the emulation continue past a feature it cannot reproduce.
    pub unsupported_write: bool,
}

/// The address inside the cartridge header that names the controller kind.
pub const KIND_CODE_ADDR: usize = 0x0147;

impl Cartridge {
    /// A well-formed cartridge has at least one bank and every bank holds
    /// exactly 0x4000 bytes.
    pub open spec fn wf(self) -> bool {
        &&& self.banks@.len() >= 1
        &&& forall|i: int|
            0 <= i < self.banks@.len() ==> (#[trigger] self.banks@[i])@.len() == 0x4000
    }

    /// Builds a cartridge from the banks of a ROM image, decoding the kind
    /// byte of the header and starting with bank 1 selected.
    pub fn new(banks: Vec<Vec<u8>>) -> (r: Cartridge)
        requires
            banks@.len() >= 1,
            forall|i: int| 0 <= i < banks@.len() ==> (#[trigger] banks@[i])@.len() == 0x4000,
            valid_kind_code(banks@[0]@[KIND_CODE_ADDR as int]),
        ensures
            r.wf(),
            r.banks == banks,
            r.kind == kind_of_code(banks@[0]@[KIND_CODE_ADDR as int]),
            r.active_bank == 1,
            !r.unsupported_write,
    {
        let cartridge_kind_code = banks[0][KIND_CODE_ADDR];
        Cartridge {
            banks,
            kind: CartridgeKind::from_code(cartridge_kind_code),
            active_bank: 1,
            unsupported_write: false,
        }
    }
}

/// Whether a write to `addr` touches a cartridge feature this model leaves
/// unimplemented: enabling external RAM (only meaningful on a cartridge
/// that has some), the ROM/RAM mode-select range, or a bank-control write
/// under the meta controller.  Such writes change nothing but latch
/// [`Cartridge::unsupported_write`], so the host can fail fast.
pub open spec fn write_unsupported(kind: CartridgeKind, addr: u16) -> bool {
    ||| (addr <= 0x1FFF && kind.ram)
    ||| (0x6000 <= addr && addr <= 0x7FFF)
    ||| (0x2000 <= addr && addr <= 0x3FFF && kind.mbc == Some(MBC::MMM01))
}

/// The active bank selector after a write of `data` to `addr`, given the
/// cartridge's controller `kind` and the current selector `active`.  Writes
/// into `0x2000..=0x3FFF` replace the low 5 bits (with the hardware quirk
/// that selecting bank 0 selects bank 1 instead, except on MBC5); writes
/// into `0x4000..=0x5FFF` replace bits 5 and 6.  Every other address leaves
/// the selector alone.
pub open spec fn bank_after(kind: CartridgeKind, active: u8, addr: u16, data: u8) -> u8 {
    if 0x2000 <= addr && addr <= 0x3FFF {
        match kind.mbc {
            Some(MBC::MBC1) | Some(MBC::MBC2) | Some(MBC::MBC3) | Some(MBC::HuC1)
                | Some(MBC::HuC3) => {
                if data & 0x1F == 0 {
                    (active & 0xE0) | 1
                } else {
                    (active & 0xE0) | (data & 0x1F)
                }
            },
            Some(MBC::MBC5) => (active & 0xE0) | (data & 0x1F),
            Some(MBC::MMM01) => active,
            None => active,
        }
    } else if 0x4000 <= addr && addr <= 0x5FFF {
        (active & 0x9F) | ((data & 0x03) << 5)
    } else {
        active
    }
}

/// The working-RAM vector after a write of `data` to `addr`.  Addresses
/// below 0x8000 never store a byte; the mirror window aliases
/// `0xC000..=0xDDFF`; the divider register is forced to zero whatever was
/// written.
pub open spec fn ram_after(ram: Seq<u8>, addr: u16, data: u8) -> Seq<u8> {
    if addr <= 0x7FFF {
        ram
    } else if 0xE000 <= addr && addr <= 0xFDFF {
        ram.update(addr - 0xA000, data)
    } else if addr == 0xFF04 {
        ram.update(0x7F04, 0u8)
    } else {
        ram.update(addr - 0x8000, data)
    }
}

/// How one write of `data` at `addr` through [`Memory::write`] relates the
/// memory before (`mem`) and after (`post`).
pub open spec fn mem_after_write(mem: Memory, addr: u16, data: u8, post: Memory) -> bool {
    &&& post.cartridge.banks == mem.cartridge.banks
    &&& post.cartridge.kind == mem.cartridge.kind
    &&& post.cartridge.active_bank == bank_after(
        mem.cartridge.kind,
        mem.cartridge.active_bank,
        addr,
        data,
    )
    &&& post.cartridge.unsupported_write == (mem.cartridge.unsupported_write
        || write_unsupported(mem.cartridge.kind, addr))
    &&& post.ram@ == ram_after(mem.ram@, addr, data)
}

/// The byte visible at `addr` given the ROM `banks`, the bank selector
/// `active` and the working RAM.  Addresses below the bank boundary always
/// read bank 0; the switchable window reads the selected bank, or the
/// open-bus value when the selector names a bank the image does not have;
/// external RAM reads open bus; the mirror window aliases the same bytes as
/// `0xC000..=0xDDFF`.
pub open spec fn read_at(banks: Seq<Vec<u8>>, active: u8, ram: Seq<u8>, addr: u16) -> u8 {
    if addr <= 0x3FFF {
        banks[0]@[addr as int]
    } else if addr <= 0x7FFF {
        if (active as int) < banks.len() {
            banks[active as int]@[addr - 0x4000]
        } else {
            0xFF
        }
    } else if 0xA000 <= addr && addr <= 0xBFFF {
        0xFF
    } else if 0xE000 <= addr && addr <= 0xFDFF {
        ram[addr - 0xA000]
    } else {
        ram[addr - 0x8000]
    }
}

/// Masking an address keeps it inside the corresponding backing store, and
/// within each region the mask is plain arithmetic.
proof fn lemma_mask_bounds(addr: u16)
    by (bit_vector)
    ensures
        addr & 0x3FFF < 0x4000,
        addr & 0x7FFF < 0x8000,
        (addr & 0x1FFF) + 0x4000 < 0x8000,
        0x4000 <= addr && addr <= 0x7FFF ==> addr & 0x3FFF == addr - 0x4000,
        addr >= 0x8000 ==> addr & 0x7FFF == addr - 0x8000,
        0xE000 <= addr && addr <= 0xFDFF ==> (addr & 0x1FFF) + 0x4000 == addr - 0xA000,
{
}

/// The whole addressable space: the cartridge and the working-RAM half.
pub struct Memory {
    pub cartridge: Cartridge,
    pub ram: Vec<u8>,
}

impl Memory {
    /// A well-formed space has a well-formed cartridge and exactly 0x8000
    /// bytes of working RAM.
    pub open spec fn wf(self) -> bool {
        &&& self.cartridge.wf()
        &&& self.ram@.len() == 0x8000
    }

    /// The byte visible at `addr`.
    pub open spec fn spec_read(self, addr: u16) -> u8 {
        read_at(self.cartridge.banks@, self.cartridge.active_bank, self.ram@, addr)
    }

    /// A fresh space around `cartridge`, with the working RAM zeroed.
    pub fn new(cartridge: Cartridge) -> (r: Memory)
        requires
            cartridge.wf(),
        ensures
            r.wf(),
            r.cartridge == cartridge,
            forall|i: int| 0 <= i < 0x8000 ==> r.ram@[i] == 0u8,
    {
        let mut ram: Vec<u8> = Vec::new();
        while ram.len() < 0x8000
            invariant
                ram@.len() <= 0x8000,
                forall|i: int| 0 <= i < ram@.len() ==> ram@[i] == 0u8,
            decreases 0x8000 - ram@.len(),
        {
            ram.push(0);
        }
        Memory { cartridge, ram }
    }

    /// Reads the byte at `addr`.
    pub fn read(&self, addr: u16) -> (r: u8)
        requires
            self.wf(),
        ensures
            r == self.spec_read(addr),
    {
        proof {
            lemma_mask_bounds(addr);
        }
        match addr {
            // Fixed cartridge bank read
            0x0000..=0x3FFF => self.cartridge.banks[0][addr as usize],
            // Switchable cartridge bank read; a selector past the image
            // reads open bus
            0x4000..=0x7FFF => {
                if (self.cartridge.active_bank as usize) < self.cartridge.banks.len() {
                    self.cartridge.banks[self.cartridge.active_bank as usize][(addr
                        & 0x3FFF) as usize]
                } else {
                    0xFF
                }
            },
            // External RAM is not implemented: open bus
            0xA000..=0xBFFF => 0xFF,
            // Mirror of C000~DDFF
            0xE000..=0xFDFF => self.ram[((addr & 0x1FFF) + 0x4000) as usize],
            // Normal RAM read
            _ => self.ram[(addr & 0x7FFF) as usize],
        }
    }

    /// Writes `data` at `addr`: a store into working RAM, a bank-control
    /// write, or nothing, as [`bank_after`] and [`ram_after`] say.
    pub fn write(&mut self, addr: u16, data: u8)
        requires
            old(self).wf(),
        ensures
            final(self).wf(),
            final(self).cartridge.banks == old(self).cartridge.banks,
            final(self).cartridge.kind == old(self).cartridge.kind,
            final(self).cartridge.active_bank == bank_after(
                old(self).cartridge.kind,
                old(self).cartridge.active_bank,
                addr,
                data,
            ),
            final(self).cartridge.unsupported_write == (old(self).cartridge.unsupported_write
                || write_unsupported(old(self).cartridge.kind, addr)),
            final(self).ram@ == ram_after(old(self).ram@, addr, data),
    {
        proof {
            lemma_mask_bounds(addr);
        }
        match addr {
            // RAM enable: external RAM is not implemented; the write is
            // ignored and the unsupported-feature latch raised
            0x0000..=0x1FFF => {
                if self.cartridge.kind.ram {
                    self.cartridge.unsupported_write = true;
                }
            },
            // Select the lower 5 bits of the bank number
            0x2000..=0x3FFF => {
                if let Some(mbc) = self.cartridge.kind.mbc {
                    match mbc {
                        MBC::MBC1 | MBC::MBC2 | MBC::MBC3 | MBC::HuC1 | MBC::HuC3 => {
                            let mut data_lower_5 = data & 0b0001_1111;
                            // Bank switching quirk: bank 0 is never selectable
                            if data_lower_5 == 0 {
                                data_lower_5 = 1;
                            }
                            self.cartridge.active_bank = (self.cartridge.active_bank & 0b1110_0000)
                                | data_lower_5;
                        },
                        MBC::MBC5 => {
                            self.cartridge.active_bank = (self.cartridge.active_bank & 0b1110_0000)
                                | (data & 0b0001_1111);
                        },
                        // Meta bank switching is not implemented; the write
                        // is ignored and the unsupported-feature latch raised
                        MBC::MMM01 => {
                            self.cartridge.unsupported_write = true;
                        },
                    }
                }
            },
            // Select bits 5 and 6 of the bank number
            0x4000..=0x5FFF => {
                self.cartridge.active_bank = (self.cartridge.active_bank & 0b1001_1111) | ((data
                    & 0b0000_0011) << 5);
            },
            // ROM/RAM mode select is not implemented; the write is ignored
            // and the unsupported-feature latch raised
            0x6000..=0x7FFF => {
                self.cartridge.unsupported_write = true;
            },
            // Mirror of C000~DDFF
            0xE000..=0xFDFF => {
                self.ram[((addr & 0x1FFF) + 0x4000) as usize] = data;
            },
            // A write to the divider register forces it to zero
            0xFF04 => {
                self.ram[0x7F04] = 0;
            },
            // Normal RAM writes
            _ => {
                self.ram[(addr & 0x7FFF) as usize] = data;
            },
        }
    }
}

/// The flat power-on image of the first two ROM banks followed by zeroed
/// RAM, as one 64 KiB vector.
pub fn init_ram(rom: &Vec<Vec<u8>>) -> (r: Vec<u8>)
    requires
        rom@.len() >= 2,
        rom@[0]@.len() >= 0x4000,
        rom@[1]@.len() >= 0x4000,
    ensures
        r@.len() == 0x10000,
        forall|i: int| 0 <= i < 0x4000 ==> r@[i] == rom@[0]@[i],
        forall|i: int| 0x4000 <= i < 0x8000 ==> r@[i] == rom@[1]@[i - 0x4000],
        forall|i: int| 0x8000 <= i < 0x10000 ==> r@[i] == 0u8,
{
    let mut ram: Vec<u8> = Vec::new();
    while ram.len() < 0x4000
        invariant
            rom@.len() >= 2,
            rom@[0]@.len() >= 0x4000,
            ram@.len() <= 0x4000,
            forall|i: int| 0 <= i < ram@.len() ==> ram@[i] == rom@[0]@[i],
        decreases 0x4000 - ram@.len(),
    {
        let next = rom[0][ram.len()];
        ram.push(next);
    }
    while ram.len() < 0x8000
        invariant
            rom@.len() >= 2,
            rom@[1]@.len() >= 0x4000,
            0x4000 <= ram@.len() <= 0x8000,
            forall|i: int| 0 <= i < 0x4000 ==> ram@[i] == rom@[0]@[i],
            forall|i: int| 0x4000 <= i < ram@.len() ==> ram@[i] == rom@[1]@[i - 0x4000],
        decreases 0x8000 - ram@.len(),
    {
        let next = rom[1][ram.len() - 0x4000];
        ram.push(next);
    }
    while ram.len() < 0x10000
        invariant
            0x8000 <= ram@.len() <= 0x10000,
            forall|i: int| 0 <= i < 0x4000 ==> ram@[i] == rom@[0]@[i],
            forall|i: int| 0x4000 <= i < 0x8000 ==> ram@[i] == rom@[1]@[i - 0x4000],
            forall|i: int| 0x8000 <= i < ram@.len() ==> ram@[i] == 0u8,
        decreases 0x10000 - ram@.len(),
    {
        ram.push(0);
    }
    ram
}

} // verus!
