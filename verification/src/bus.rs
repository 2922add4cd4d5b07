//! What a bank controller asks of the cartridge hardware after it has seen a
//! bus event, and the interface that every controller offers.
use vstd::prelude::*;

verus! {

/// One of the four HuC3 I/O registers that can be mapped into the
/// cartridge RAM window.
#[derive(Clone, Copy, Debug, PartialEq, Eq, Structural)]
pub enum Huc3Register {
    CommandArg,
    Response,
    Semaphore,
    Ir,
}

/// What the cartridge RAM window (0xA000-0xBFFF) is switched to.
#[derive(Clone, Copy, Debug, PartialEq, Eq, Structural)]
pub enum RamAccess {
    /// Reads and writes reach the selected RAM bank.
    ReadWrite,
    /// Reads reach the selected RAM bank, writes are ignored.
    ReadOnly,
    /// The window is closed.
    Disabled,
    /// The window shows the selected real-time-clock register.
    Rtc,
    /// The window shows one HuC3 I/O register.
    Huc3Io(Huc3Register),
}

/// The requests that one bus event produces, each `None` / `false` when
/// the event does not call for it. A driver carries them out in the order
/// of the fields.
#[derive(Clone, Copy, Debug, PartialEq, Eq, Structural)]
pub struct BusEffects {
    /// Let the real-time clock advance its registers.
    pub rtc_process: bool,
    /// Select this real-time-clock register for the RAM window.
    pub rtc_register: Option<u8>,
    /// Latch the real-time-clock registers.
    pub rtc_latch: bool,
    /// Point the RAM window at this byte offset into the cartridge RAM.
    pub ram_bank_offset: Option<usize>,
    /// Switch the RAM window.
    pub ram_access: Option<RamAccess>,
    /// Point the switchable ROM window at this byte offset into the ROM.
    pub rom_bank_offset: Option<u32>,
}

/// The data of the last write in `writes` that reaches register `r` (see
/// `register_of`), if any.
pub open spec fn last_register_write(writes: Seq<(u32, u8)>, r: int) -> Option<u8>
    decreases writes.len(),
{
    if writes.len() == 0 {
        None
    } else if register_of(writes.last().0) == r {
        Some(writes.last().1)
    } else {
        last_register_write(writes.drop_last(), r)
    }
}

/// The effects of an event that asks nothing of the hardware.
pub open spec fn no_effects() -> BusEffects {
    BusEffects {
        rtc_process: false,
        rtc_register: None,
        rtc_latch: false,
        ram_bank_offset: None,
        ram_access: None,
        rom_bank_offset: None,
    }
}

impl BusEffects {
    /// Effects that ask nothing of the hardware.
    pub fn none() -> (eff: BusEffects)
        ensures
            eff == no_effects(),
    {
        BusEffects {
            rtc_process: false,
            rtc_register: None,
            rtc_latch: false,
            ram_bank_offset: None,
            ram_access: None,
            rom_bank_offset: None,
        }
    }
}

/// Where the switchable ROM window points after a driver has carried out
/// `eff`, when it pointed at byte offset `current` before.
pub open spec fn rom_window_after(current: int, eff: BusEffects) -> int {
    match eff.rom_bank_offset {
        Some(offset) => offset as int,
        None => current,
    }
}

/// Where the RAM window points after a driver has carried out `eff`, when it
/// pointed at byte offset `current` before.
pub open spec fn ram_window_after(current: int, eff: BusEffects) -> int {
    match eff.ram_bank_offset {
        Some(offset) => offset as int,
        None => current,
    }
}

/// The RAM access that a RAM-enable write selects on the plain cartridges:
/// the window opens exactly when the low nibble of the data is 0xA.
pub open spec fn ram_enable_access(data: u8) -> RamAccess {
    if data % 16 == 10 {
        RamAccess::ReadWrite
    } else {
        RamAccess::Disabled
    }
}

/// The memory bank controller register (0 to 7) that a write to `addr`
/// reaches: the controllers decode the address lines A13 to A15.
pub open spec fn register_of(addr: u32) -> int {
    (addr as int % 0x10000) / 0x2000
}

/// The memory bank controller of a cartridge: it sees the writes the Game
/// Boy makes to the cartridge's ROM area, and is told when the bus is idle.
pub trait Mbc {
    /// The Game Boy wrote `data` to `addr`.
    fn on_write(&mut self, addr: u32, data: u8) -> BusEffects;

    /// No write is waiting.
    fn on_idle(&mut self) -> BusEffects;
}

/// A cartridge without a memory bank controller: writes change nothing.
pub struct NoMbc {}

impl NoMbc {
    pub fn new() -> (m: NoMbc) {
        NoMbc {}
    }
}

impl Mbc for NoMbc {
    fn on_write(&mut self, addr: u32, data: u8) -> (eff: BusEffects)
        ensures
            eff == no_effects(),
    {
        BusEffects::none()
    }

    fn on_idle(&mut self) -> (eff: BusEffects)
        ensures
            eff == no_effects(),
    {
        BusEffects::none()
    }
}

/// The effects of an event that asks nothing of the hardware hold no
/// request at all.
pub proof fn lemma_no_effects_asks_nothing()
    ensures
        no_effects() == (BusEffects {
            rtc_process: false,
            rtc_register: None,
            rtc_latch: false,
            ram_bank_offset: None,
            ram_access: None,
            rom_bank_offset: None,
        }),
{
}

} // verus!
