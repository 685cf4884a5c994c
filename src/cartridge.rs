use vstd::prelude::*;
use crate::zeroed;

verus! {

pub const ROM_BANK_SIZE: usize = 0x4000;
pub const RAM_BANK_SIZE: usize = 0x2000;
pub const TITLE_START_ADDRESS: usize = 0x0134;
pub const TITLE_END_ADDRESS: usize = 0x0143;
pub const TYPE_ADDRESS: usize = 0x0147;
pub const ROM_SIZE_ADDRESS: usize = 0x0148;
pub const RAM_SIZE_ADDRESS: usize = 0x0149;
/// The header ends before this offset: a shorter file has no complete header.
pub const HEADER_END: usize = 0x0150;
/// Size of the built-in RAM of MBC2 (512 half-bytes).
pub const MBC2_RAM_SIZE: usize = 0x200;

/// The memory bank controllers that a cartridge may carry.
#[derive(Clone, Copy, Debug, PartialEq, Eq, Structural)]
pub enum CartrigeModels {
    RomOnly,
    MBC1,
    MBC1Ram,
    MBC1RamBattery,
    MBC2,
    MBC2Battery,
    RomRam,
    RomRamBattery,
}

/// The ROM sizes of the header, with their number of 16 KiB banks. The last three (codes
/// 0x52-0x54) are named for completeness; `load` refuses them.
#[derive(Clone, Copy, Debug, PartialEq, Eq, Structural)]
pub enum RomSize {
    KBytes32NoBanking,
    KBytes64Bank4,
    KBytes128Bank8,
    KBytes256Bank16,
    KBytes512Bank32,
    MBytes1Bank64,
    MBytes2Bank128,
    MBytes4Bank256,
    MBytes8Bank512,
    MBytes1_1Bank72,
    MBytes1_2Bank80,
    MBytes1_5Bank96,
}

/// The external RAM sizes of the header.
#[derive(Clone, Copy, Debug, PartialEq, Eq, Structural)]
pub enum RamSize {
    NoRam,
    KBytes2,
    Kbytes8,
    KBytes32Banks4,
    KBytes64Banks8,
    KBytes128Banks16,
}

#[derive(Clone, Copy, Debug, PartialEq, Eq, Structural)]
pub enum CartridgeError {
    /// Unknown controller, ROM-size or RAM-size code, or a file shorter than its header or than
    /// the ROM size it declares.
    InvalidHeader,
}

/// The bank-select registers of the controller, changed by writes to 0000-7FFF.
#[derive(Clone, Copy, Debug, PartialEq, Eq, Structural)]
pub struct BankRegisters {
    pub ram_enabled: bool,
    /// Lower bits of the ROM bank number (5 bits on MBC1, 4 on MBC2).
    pub rom_bank_low: u8,
    /// Upper ROM bank bits, or the RAM bank in RAM banking mode (MBC1).
    pub bank_high: u8,
    /// MBC1 banking mode: false selects ROM banking, true RAM banking.
    pub ram_banking_mode: bool,
}

pub open spec fn initial_banks() -> BankRegisters {
    BankRegisters { ram_enabled: false, rom_bank_low: 1, bank_high: 0, ram_banking_mode: false }
}

pub open spec fn model_of(code: u8) -> Option<CartrigeModels> {
    match code {
        0x00 => Some(CartrigeModels::RomOnly),
        0x01 => Some(CartrigeModels::MBC1),
        0x02 => Some(CartrigeModels::MBC1Ram),
        0x03 => Some(CartrigeModels::MBC1RamBattery),
        0x05 => Some(CartrigeModels::MBC2),
        0x06 => Some(CartrigeModels::MBC2Battery),
        0x08 => Some(CartrigeModels::RomRam),
        0x09 => Some(CartrigeModels::RomRamBattery),
        _ => None,
    }
}

pub open spec fn rom_size_of(code: u8) -> Option<RomSize> {
    match code {
        0x00 => Some(RomSize::KBytes32NoBanking),
        0x01 => Some(RomSize::KBytes64Bank4),
        0x02 => Some(RomSize::KBytes128Bank8),
        0x03 => Some(RomSize::KBytes256Bank16),
        0x04 => Some(RomSize::KBytes512Bank32),
        0x05 => Some(RomSize::MBytes1Bank64),
        0x06 => Some(RomSize::MBytes2Bank128),
        0x07 => Some(RomSize::MBytes4Bank256),
        0x08 => Some(RomSize::MBytes8Bank512),
        _ => None,
    }
}

pub open spec fn ram_size_of(code: u8) -> Option<RamSize> {
    match code {
        0x00 => Some(RamSize::NoRam),
        0x01 => Some(RamSize::KBytes2),
        0x02 => Some(RamSize::Kbytes8),
        0x03 => Some(RamSize::KBytes32Banks4),
        0x04 => Some(RamSize::KBytes64Banks8),
        0x05 => Some(RamSize::KBytes128Banks16),
        _ => None,
    }
}

pub open spec fn rom_bank_count(size: RomSize) -> nat {
    match size {
        RomSize::KBytes32NoBanking => 2,
        RomSize::KBytes64Bank4 => 4,
        RomSize::KBytes128Bank8 => 8,
        RomSize::KBytes256Bank16 => 16,
        RomSize::KBytes512Bank32 => 32,
        RomSize::MBytes1Bank64 => 64,
        RomSize::MBytes2Bank128 => 128,
        RomSize::MBytes4Bank256 => 256,
        RomSize::MBytes8Bank512 => 512,
        RomSize::MBytes1_1Bank72 => 72,
        RomSize::MBytes1_2Bank80 => 80,
        RomSize::MBytes1_5Bank96 => 96,
    }
}

pub open spec fn is_mbc1(model: CartrigeModels) -> bool {
    model == CartrigeModels::MBC1 || model == CartrigeModels::MBC1Ram || model
        == CartrigeModels::MBC1RamBattery
}

pub open spec fn is_mbc2(model: CartrigeModels) -> bool {
    model == CartrigeModels::MBC2 || model == CartrigeModels::MBC2Battery
}

/// Bytes of external RAM: MBC2 has its own 512 cells whatever the header says.
pub open spec fn ram_bytes(model: CartrigeModels, size: RamSize) -> nat {
    if is_mbc2(model) {
        MBC2_RAM_SIZE as nat
    } else {
        match size {
            RamSize::NoRam => 0,
            RamSize::KBytes2 => 0x800,
            RamSize::Kbytes8 => 0x2000,
            RamSize::KBytes32Banks4 => 0x8000,
            RamSize::KBytes64Banks8 => 0x10000,
            RamSize::KBytes128Banks16 => 0x20000,
        }
    }
}

/// The header decodes and the file holds the whole ROM it declares.
pub open spec fn header_ok(data: Seq<u8>) -> bool {
    &&& data.len() >= HEADER_END
    &&& model_of(data[TYPE_ADDRESS as int]).is_some()
    &&& rom_size_of(data[ROM_SIZE_ADDRESS as int]).is_some()
    &&& ram_size_of(data[RAM_SIZE_ADDRESS as int]).is_some()
    &&& data.len() >= rom_bank_count(rom_size_of(data[ROM_SIZE_ADDRESS as int]).unwrap())
        * ROM_BANK_SIZE
}

/// The bank-select registers after a control write to `address` (0000-7FFF).
pub open spec fn banks_after_write(
    model: CartrigeModels,
    banks: BankRegisters,
    address: int,
    value: u8,
) -> BankRegisters {
    if is_mbc1(model) {
        if address < 0x2000 {
            BankRegisters { ram_enabled: value % 16 == 0x0a, ..banks }
        } else if address < 0x4000 {
            BankRegisters { rom_bank_low: value % 32, ..banks }
        } else if address < 0x6000 {
            BankRegisters { bank_high: value % 4, ..banks }
        } else {
            BankRegisters { ram_banking_mode: value % 2 == 1, ..banks }
        }
    } else if is_mbc2(model) && address < 0x4000 {
        if (address / 256) % 2 == 0 {
            BankRegisters { ram_enabled: value % 16 == 0x0a, ..banks }
        } else {
            BankRegisters { rom_bank_low: value % 16, ..banks }
        }
    } else {
        banks
    }
}

pub struct Cartridge {
    /// The 16 title bytes of the header, as they stand.
    pub title: Vec<u8>,
    pub model: CartrigeModels,
    pub rom_size: RomSize,
    pub ram_size: RamSize,
    /// Every ROM bank in order, bank 0 first.
    pub rom: Vec<u8>,
    /// Every external RAM bank in order.
    pub ram: Vec<u8>,
    pub banks: BankRegisters,
}

fn decode_model(code: u8) -> (r: Option<CartrigeModels>)
    ensures
        r == model_of(code),
{
    match code {
        0x00 => Some(CartrigeModels::RomOnly),
        0x01 => Some(CartrigeModels::MBC1),
        0x02 => Some(CartrigeModels::MBC1Ram),
        0x03 => Some(CartrigeModels::MBC1RamBattery),
        0x05 => Some(CartrigeModels::MBC2),
        0x06 => Some(CartrigeModels::MBC2Battery),
        0x08 => Some(CartrigeModels::RomRam),
        0x09 => Some(CartrigeModels::RomRamBattery),
        _ => None,
    }
}

fn decode_rom_size(code: u8) -> (r: Option<RomSize>)
    ensures
        r == rom_size_of(code),
{
    match code {
        0x00 => Some(RomSize::KBytes32NoBanking),
        0x01 => Some(RomSize::KBytes64Bank4),
        0x02 => Some(RomSize::KBytes128Bank8),
        0x03 => Some(RomSize::KBytes256Bank16),
        0x04 => Some(RomSize::KBytes512Bank32),
        0x05 => Some(RomSize::MBytes1Bank64),
        0x06 => Some(RomSize::MBytes2Bank128),
        0x07 => Some(RomSize::MBytes4Bank256),
        0x08 => Some(RomSize::MBytes8Bank512),
        _ => None,
    }
}

fn decode_ram_size(code: u8) -> (r: Option<RamSize>)
    ensures
        r == ram_size_of(code),
{
    match code {
        0x00 => Some(RamSize::NoRam),
        0x01 => Some(RamSize::KBytes2),
        0x02 => Some(RamSize::Kbytes8),
        0x03 => Some(RamSize::KBytes32Banks4),
        0x04 => Some(RamSize::KBytes64Banks8),
        0x05 => Some(RamSize::KBytes128Banks16),
        _ => None,
    }
}

fn bank_count(size: RomSize) -> (r: usize)
    ensures
        r == rom_bank_count(size),
{
    match size {
        RomSize::KBytes32NoBanking => 2,
        RomSize::KBytes64Bank4 => 4,
        RomSize::KBytes128Bank8 => 8,
        RomSize::KBytes256Bank16 => 16,
        RomSize::KBytes512Bank32 => 32,
        RomSize::MBytes1Bank64 => 64,
        RomSize::MBytes2Bank128 => 128,
        RomSize::MBytes4Bank256 => 256,
        RomSize::MBytes8Bank512 => 512,
        RomSize::MBytes1_1Bank72 => 72,
        RomSize::MBytes1_2Bank80 => 80,
        RomSize::MBytes1_5Bank96 => 96,
    }
}

fn ram_length(model: CartrigeModels, size: RamSize) -> (r: usize)
    ensures
        r == ram_bytes(model, size),
{
    match model {
        CartrigeModels::MBC2 | CartrigeModels::MBC2Battery => MBC2_RAM_SIZE,
        _ => match size {
            RamSize::NoRam => 0,
            RamSize::KBytes2 => 0x800,
            RamSize::Kbytes8 => 0x2000,
            RamSize::KBytes32Banks4 => 0x8000,
            RamSize::KBytes64Banks8 => 0x10000,
            RamSize::KBytes128Banks16 => 0x20000,
        },
    }
}

impl Cartridge {
    pub open spec fn wf(&self) -> bool {
        &&& self.rom@.len() == rom_bank_count(self.rom_size) * ROM_BANK_SIZE
        &&& self.ram@.len() == ram_bytes(self.model, self.ram_size)
    }

    pub open spec fn rom_banks(&self) -> nat {
        rom_bank_count(self.rom_size)
    }

    /// The ROM bank seen at 4000-7FFF: MBC1 turns a zero in the low five bits into one, so
    /// banks 0x00, 0x20, 0x40 and 0x60 are never selected; the number is then reduced to the
    /// banks present.
    pub open spec fn selected_rom_bank(&self) -> int {
        if is_mbc1(self.model) {
            let low = if self.banks.rom_bank_low % 32 == 0 {
                1
            } else {
                self.banks.rom_bank_low % 32
            };
            if self.banks.ram_banking_mode {
                low as int
            } else {
                (self.banks.bank_high % 4) as int * 32 + low as int
            }
        } else if is_mbc2(self.model) {
            if self.banks.rom_bank_low % 16 == 0 {
                1
            } else {
                (self.banks.rom_bank_low % 16) as int
            }
        } else {
            1
        }
    }

    /// The bank seen at 4000-7FFF: the selected bank reduced to the banks present, and bank 1
    /// where that reduction would give bank 0, which is only ever seen at 0000-3FFF.
    pub open spec fn active_bank(&self) -> int {
        let b = self.selected_rom_bank() % (self.rom_banks() as int);
        if b == 0 {
            1
        } else {
            b
        }
    }

    /// Whether the external RAM answers at A000-BFFF.
    pub open spec fn ram_accessible(&self) -> bool {
        self.ram@.len() > 0 && (self.banks.ram_enabled || self.model == CartrigeModels::RomRam
            || self.model == CartrigeModels::RomRamBattery)
    }

    /// Index into `ram` of an offset in the A000-BFFF window.
    pub open spec fn ram_index(&self, offset: int) -> int {
        if is_mbc2(self.model) {
            offset % (MBC2_RAM_SIZE as int)
        } else {
            let bank = if is_mbc1(self.model) && self.banks.ram_banking_mode {
                (self.banks.bank_high % 4) as int
            } else {
                0
            };
            (bank * (RAM_BANK_SIZE as int) + offset) % (self.ram@.len() as int)
        }
    }

    /// What a read of the A000-BFFF window returns.
    pub open spec fn ram_read(&self, offset: int) -> u8 {
        if !self.ram_accessible() {
            0xff
        } else if is_mbc2(self.model) {
            self.ram@[self.ram_index(offset)] | 0xf0
        } else {
            self.ram@[self.ram_index(offset)]
        }
    }

    /// The RAM after a write to the A000-BFFF window.
    pub open spec fn ram_after_write(&self, offset: int, value: u8) -> Seq<u8> {
        if !self.ram_accessible() {
            self.ram@
        } else if is_mbc2(self.model) {
            self.ram@.update(self.ram_index(offset), value & 0x0f)
        } else {
            self.ram@.update(self.ram_index(offset), value)
        }
    }

    /// A cartridge of 32 KiB of zeros, without controller or RAM.
    pub fn new() -> (c: Cartridge)
        ensures
            c.wf(),
            c.model == CartrigeModels::RomOnly,
            c.rom_size == RomSize::KBytes32NoBanking,
            c.ram_size == RamSize::NoRam,
            c.rom@ == Seq::new(0x8000, |i: int| 0u8),
            c.ram@.len() == 0,
            c.banks == initial_banks(),
    {
        Cartridge {
            title: Vec::new(),
            model: CartrigeModels::RomOnly,
            rom_size: RomSize::KBytes32NoBanking,
            ram_size: RamSize::NoRam,
            rom: zeroed(2 * ROM_BANK_SIZE),
            ram: Vec::new(),
            banks: BankRegisters {
                ram_enabled: false,
                rom_bank_low: 1,
                bank_high: 0,
                ram_banking_mode: false,
            },
        }
    }

    /// Decodes the header of a ROM image and takes its banks; RAM starts zeroed.
    pub fn load(data: &Vec<u8>) -> (r: Result<Cartridge, CartridgeError>)
        ensures
            r.is_ok() == header_ok(data@),
            r.is_err() ==> r == Err::<Cartridge, CartridgeError>(CartridgeError::InvalidHeader),
            r matches Ok(c) ==> {
                &&& c.wf()
                &&& Some(c.model) == model_of(data@[TYPE_ADDRESS as int])
                &&& Some(c.rom_size) == rom_size_of(data@[ROM_SIZE_ADDRESS as int])
                &&& Some(c.ram_size) == ram_size_of(data@[RAM_SIZE_ADDRESS as int])
                &&& c.rom@ == data@.subrange(0, c.rom@.len() as int)
                &&& c.ram@ == Seq::new(c.ram@.len(), |i: int| 0u8)
                &&& c.title@ == data@.subrange(TITLE_START_ADDRESS as int, TITLE_END_ADDRESS + 1)
                &&& c.banks == initial_banks()
            },
    {
        if data.len() < HEADER_END {
            return Err(CartridgeError::InvalidHeader);
        }
        let model = match decode_model(data[TYPE_ADDRESS]) {
            Some(m) => m,
            None => return Err(CartridgeError::InvalidHeader),
        };
        let rom_size = match decode_rom_size(data[ROM_SIZE_ADDRESS]) {
            Some(s) => s,
            None => return Err(CartridgeError::InvalidHeader),
        };
        let ram_size = match decode_ram_size(data[RAM_SIZE_ADDRESS]) {
            Some(s) => s,
            None => return Err(CartridgeError::InvalidHeader),
        };
        let rom_len = bank_count(rom_size) * ROM_BANK_SIZE;
        if data.len() < rom_len {
            return Err(CartridgeError::InvalidHeader);
        }
        let mut rom: Vec<u8> = Vec::new();
        let mut i: usize = 0;
        while i < rom_len
            invariant
                i <= rom_len <= data@.len(),
                rom@ == data@.subrange(0, i as int),
            decreases rom_len - i,
        {
            rom.push(data[i]);
            i = i + 1;
            assert(rom@ =~= data@.subrange(0, i as int));
        }
        let mut title: Vec<u8> = Vec::new();
        let mut k: usize = TITLE_START_ADDRESS;
        while k <= TITLE_END_ADDRESS
            invariant
                TITLE_START_ADDRESS <= k <= TITLE_END_ADDRESS + 1,
                data@.len() >= HEADER_END,
                title@ == data@.subrange(TITLE_START_ADDRESS as int, k as int),
            decreases TITLE_END_ADDRESS + 1 - k,
        {
            title.push(data[k]);
            k = k + 1;
            assert(title@ =~= data@.subrange(TITLE_START_ADDRESS as int, k as int));
        }
        let ram = zeroed(ram_length(model, ram_size));
        Ok(
            Cartridge {
                title,
                model,
                rom_size,
                ram_size,
                rom,
                ram,
                banks: BankRegisters {
                    ram_enabled: false,
                    rom_bank_low: 1,
                    bank_high: 0,
                    ram_banking_mode: false,
                },
            },
        )
    }

    pub fn read_bank0(&self, address: usize) -> (r: u8)
        requires
            self.wf(),
            address < ROM_BANK_SIZE,
        ensures
            r == self.rom@[address as int],
    {
        self.rom[address]
    }

    /// Control write to 0000-3FFF: RAM enable and the low ROM bank bits. ROM is not changed.
    pub fn write_bank0(&mut self, address: usize, value: u8)
        requires
            address < ROM_BANK_SIZE,
        ensures
            final(self).banks == banks_after_write(old(self).model, old(self).banks, address as int, value),
            final(self).rom == old(self).rom,
            final(self).ram == old(self).ram,
            final(self).title == old(self).title,
            final(self).model == old(self).model,
            final(self).rom_size == old(self).rom_size,
            final(self).ram_size == old(self).ram_size,
    {
        self.control_write(address, value);
    }

    /// Control write to 4000-7FFF (`address` relative to 0x4000): upper bank bits and banking mode.
    pub fn write_active_bank(&mut self, address: usize, value: u8)
        requires
            address < ROM_BANK_SIZE,
        ensures
            final(self).banks == banks_after_write(
                old(self).model,
                old(self).banks,
                address + ROM_BANK_SIZE,
                value,
            ),
            final(self).rom == old(self).rom,
            final(self).ram == old(self).ram,
            final(self).title == old(self).title,
            final(self).model == old(self).model,
            final(self).rom_size == old(self).rom_size,
            final(self).ram_size == old(self).ram_size,
    {
        self.control_write(address + ROM_BANK_SIZE, value);
    }

    fn control_write(&mut self, address: usize, value: u8)
        requires
            address < 2 * ROM_BANK_SIZE,
        ensures
            final(self).banks == banks_after_write(old(self).model, old(self).banks, address as int, value),
            final(self).rom == old(self).rom,
            final(self).ram == old(self).ram,
            final(self).title == old(self).title,
            final(self).model == old(self).model,
            final(self).rom_size == old(self).rom_size,
            final(self).ram_size == old(self).ram_size,
    {
        match self.model {
            CartrigeModels::MBC1 | CartrigeModels::MBC1Ram | CartrigeModels::MBC1RamBattery => {
                if address < 0x2000 {
                    self.banks.ram_enabled = value % 16 == 0x0a;
                } else if address < 0x4000 {
                    self.banks.rom_bank_low = value % 32;
                } else if address < 0x6000 {
                    self.banks.bank_high = value % 4;
                } else {
                    self.banks.ram_banking_mode = value % 2 == 1;
                }
            },
            CartrigeModels::MBC2 | CartrigeModels::MBC2Battery => {
                if address < 0x4000 {
                    if (address / 256) % 2 == 0 {
                        self.banks.ram_enabled = value % 16 == 0x0a;
                    } else {
                        self.banks.rom_bank_low = value % 16;
                    }
                }
            },
            _ => {},
        }
    }

    fn selected_bank(&self) -> (r: usize)
        ensures
            r == self.selected_rom_bank(),
    {
        match self.model {
            CartrigeModels::MBC1 | CartrigeModels::MBC1Ram | CartrigeModels::MBC1RamBattery => {
                let low: usize = if self.banks.rom_bank_low % 32 == 0 {
                    1
                } else {
                    (self.banks.rom_bank_low % 32) as usize
                };
                if self.banks.ram_banking_mode {
                    low
                } else {
                    (self.banks.bank_high % 4) as usize * 32 + low
                }
            },
            CartrigeModels::MBC2 | CartrigeModels::MBC2Battery => {
                if self.banks.rom_bank_low % 16 == 0 {
                    1
                } else {
                    (self.banks.rom_bank_low % 16) as usize
                }
            },
            _ => 1,
        }
    }

    /// A byte of the ROM bank selected for 4000-7FFF (`address` relative to 0x4000).
    pub fn read_active_bank(&self, address: usize) -> (r: u8)
        requires
            self.wf(),
            address < ROM_BANK_SIZE,
        ensures
            r == self.rom@[self.active_bank() * ROM_BANK_SIZE + address],
    {
        let n = self.rom.len() / ROM_BANK_SIZE;
        assert(n == self.rom_banks()) by (nonlinear_arith)
            requires
                self.rom@.len() == self.rom_banks() * 0x4000,
                n == self.rom@.len() / 0x4000,
        ;
        let reduced = self.selected_bank() % n;
        let bank = if reduced == 0 {
            1
        } else {
            reduced
        };
        assert(bank * ROM_BANK_SIZE + address < self.rom@.len()) by (nonlinear_arith)
            requires
                bank < n,
                n * ROM_BANK_SIZE == self.rom@.len(),
                address < ROM_BANK_SIZE,
        ;
        self.rom[bank * ROM_BANK_SIZE + address]
    }

    fn ram_position(&self, address: usize) -> (r: usize)
        requires
            self.wf(),
            self.ram@.len() > 0,
            address < RAM_BANK_SIZE,
        ensures
            r == self.ram_index(address as int),
            r < self.ram@.len(),
    {
        match self.model {
            CartrigeModels::MBC2 | CartrigeModels::MBC2Battery => address % MBC2_RAM_SIZE,
            _ => {
                let bank: usize = if (self.model == CartrigeModels::MBC1 || self.model
                    == CartrigeModels::MBC1Ram || self.model == CartrigeModels::MBC1RamBattery)
                    && self.banks.ram_banking_mode {
                    (self.banks.bank_high % 4) as usize
                } else {
                    0
                };
                (bank * RAM_BANK_SIZE + address) % self.ram.len()
            },
        }
    }

    /// A byte of the external RAM window A000-BFFF (`address` relative to 0xA000); 0xFF when the
    /// cartridge has no RAM or it is not enabled.
    pub fn read_active_ram(&self, address: usize) -> (r: u8)
        requires
            self.wf(),
            address < RAM_BANK_SIZE,
        ensures
            r == self.ram_read(address as int),
    {
        let accessible = self.ram.len() > 0 && (self.banks.ram_enabled || self.model
            == CartrigeModels::RomRam || self.model == CartrigeModels::RomRamBattery);
        if !accessible {
            return 0xff;
        }
        let i = self.ram_position(address);
        match self.model {
            CartrigeModels::MBC2 | CartrigeModels::MBC2Battery => self.ram[i] | 0xf0,
            _ => self.ram[i],
        }
    }

    /// Writes the external RAM window; ignored when there is no RAM or it is not enabled.
    pub fn write_active_ram(&mut self, address: usize, value: u8)
        requires
            old(self).wf(),
            address < RAM_BANK_SIZE,
        ensures
            final(self).wf(),
            final(self).ram@ == old(self).ram_after_write(address as int, value),
            final(self).rom == old(self).rom,
            final(self).banks == old(self).banks,
            final(self).title == old(self).title,
            final(self).model == old(self).model,
            final(self).rom_size == old(self).rom_size,
            final(self).ram_size == old(self).ram_size,
    {
        let accessible = self.ram.len() > 0 && (self.banks.ram_enabled || self.model
            == CartrigeModels::RomRam || self.model == CartrigeModels::RomRamBattery);
        if !accessible {
            return;
        }
        let i = self.ram_position(address);
        match self.model {
            CartrigeModels::MBC2 | CartrigeModels::MBC2Battery => self.ram.set(i, value & 0x0f),
            _ => self.ram.set(i, value),
        }
    }
}

/// The bank seen at 4000-7FFF is never bank 0, whatever the bank registers hold.
pub proof fn lemma_active_bank_never_zero(c: Cartridge)
    requires
        c.wf(),
    ensures
        1 <= c.active_bank() < c.rom_banks(),
{
}

} // verus!
