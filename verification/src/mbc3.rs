//! The MBC3 controller: seven or eight ROM bank bits, four RAM banks and the
//! registers of a real-time clock, which share the RAM window.
use vstd::prelude::*;
use crate::bits::{lemma_register_decode, lemma_u8_masks};
use crate::bus::{last_register_write, no_effects, register_of, rom_window_after, BusEffects, Mbc, RamAccess};

verus! {

/// Whether a RAM bank register value selects a clock register (bit 3 set)
/// rather than a RAM bank.
pub open spec fn selects_rtc(ram_bank: u8) -> bool {
    (ram_bank / 8) % 2 == 1
}

/// The registers of an MBC3 as plain values.
pub struct Mbc3View {
    /// The ROM bank the switchable ROM window shows.
    pub rom_bank: u8,
    /// The value last written to the RAM bank register.
    pub ram_bank: u8,
    /// Whether the RAM window is enabled.
    pub ram_enabled: bool,
    /// Whether the last write to the latch register was not 0.
    pub rtc_latch: bool,
    /// 0x7F for cartridges of at most 128 ROM banks, else 0xFF.
    pub rom_bank_mask: u8,
}

impl Mbc3View {
    pub open spec fn wf(self) -> bool {
        &&& self.rom_bank_mask == 0x7F || self.rom_bank_mask == 0xFF
        &&& self.rom_bank != 0
        &&& self.rom_bank <= self.rom_bank_mask
    }

    /// The ROM bank that a write of `data` to the ROM bank register selects:
    /// the bank bits of the data (all eight with the mask 0xFF, else the low
    /// seven), with bank 0 read as bank 1.
    pub open spec fn rom_bank_for(self, data: u8) -> u8 {
        let bank = if self.rom_bank_mask == 0xFF { data as int } else { data as int % 128 };
        (if bank == 0 { 1 } else { bank }) as u8
    }

    /// What the RAM window shows once it is enabled.
    pub open spec fn enabled_access(self, ram_bank: u8) -> RamAccess {
        if selects_rtc(ram_bank) {
            RamAccess::Rtc
        } else {
            RamAccess::ReadWrite
        }
    }

    /// The controller after a write.
    pub open spec fn after_write(self, addr: u32, data: u8) -> Mbc3View {
        let r = register_of(addr);
        if r == 0 {
            Mbc3View { ram_enabled: data % 16 == 10, ..self }
        } else if r == 1 {
            Mbc3View { rom_bank: self.rom_bank_for(data), ..self }
        } else if r == 2 {
            Mbc3View { ram_bank: data, ..self }
        } else if r == 3 {
            Mbc3View { rtc_latch: data != 0, ..self }
        } else {
            self
        }
    }

    /// What a write asks of the hardware.
    /// - 0x0000-0x1FFF: the RAM window opens (on RAM or on the clock,
    ///   after the RAM bank register) or closes.
    /// - 0x4000-0x5FFF: a value with bit 3 set selects clock register
    ///   `data % 8`, any other moves the RAM window to RAM bank `data % 8`;
    ///   an enabled window follows.
    /// - 0x6000-0x7FFF: a non-zero write after a zero one latches the clock.
    /// - the ROM window moves whenever the selected bank changes.
    pub open spec fn write_effects(self, addr: u32, data: u8) -> BusEffects {
        let r = register_of(addr);
        let next = self.after_write(addr, data);
        BusEffects {
            rtc_register: if r == 2 && selects_rtc(data) { Some(data % 8) } else { None },
            rtc_latch: r == 3 && data != 0 && !self.rtc_latch,
            ram_access: if r == 0 {
                Some(
                    if next.ram_enabled {
                        self.enabled_access(self.ram_bank)
                    } else {
                        RamAccess::Disabled
                    },
                )
            } else if r == 2 && self.ram_enabled {
                Some(self.enabled_access(data))
            } else {
                None
            },
            ram_bank_offset: if r == 2 && !selects_rtc(data) {
                Some(((data % 8) * 0x2000) as usize)
            } else {
                None
            },
            rom_bank_offset: if next.rom_bank != self.rom_bank {
                Some((next.rom_bank * 0x4000) as u32)
            } else {
                None
            },
            ..no_effects()
        }
    }
}

/// What the bus being idle asks of the hardware: the clock advances.
pub open spec fn mbc3_idle_effects() -> BusEffects {
    BusEffects { rtc_process: true, ..no_effects() }
}

impl Mbc3View {
    /// The controller after the writes in `writes`, one after the other.
    pub open spec fn after_writes(self, writes: Seq<(u32, u8)>) -> Mbc3View
        decreases writes.len(),
    {
        if writes.len() == 0 {
            self
        } else {
            self.after_writes(writes.drop_last()).after_write(writes.last().0, writes.last().1)
        }
    }
}

/// An MBC3 after power-on, for a ROM of `rom_bank_count` banks.
pub open spec fn mbc3_power_on(rom_bank_count: u16) -> Mbc3View {
    Mbc3View {
        rom_bank: 1,
        ram_bank: 1,
        ram_enabled: false,
        rtc_latch: false,
        rom_bank_mask: if rom_bank_count > 128 { 0xFF } else { 0x7F },
    }
}

/// Whether the RAM window is enabled after `writes`: the low nibble of the
/// last write to 0x0000-0x1FFF was 0xA.
pub open spec fn mbc3_enabled_by(writes: Seq<(u32, u8)>) -> bool {
    last_register_write(writes, 0) matches Some(data) && data % 16 == 10
}

/// Whether the last write to the latch register in `writes` was not 0.
pub open spec fn mbc3_latched_by(writes: Seq<(u32, u8)>) -> bool {
    last_register_write(writes, 3) matches Some(data) && data != 0
}

/// The MBC3 bank controller.
pub struct Mbc3 {
    rom_bank: u8,
    ram_bank: u8,
    ram_enabled: bool,
    rtc_latch: bool,
    rom_bank_mask: u8,
}

impl View for Mbc3 {
    type V = Mbc3View;

    closed spec fn view(&self) -> Mbc3View {
        Mbc3View {
            rom_bank: self.rom_bank,
            ram_bank: self.ram_bank,
            ram_enabled: self.ram_enabled,
            rtc_latch: self.rtc_latch,
            rom_bank_mask: self.rom_bank_mask,
        }
    }
}

impl Mbc3 {
    #[verifier::type_invariant]
    spec fn inv(self) -> bool {
        self@.wf()
    }

    /// A controller after power-on for a ROM of `rom_bank_count` banks: bank 1,
    /// RAM window closed. The clock is to be brought up to date before it runs.
    pub fn new(rom_bank_count: u16) -> (m: Mbc3)
        ensures
            m@ == mbc3_power_on(rom_bank_count),
            m@.wf(),
    {
        let rom_bank_mask = if rom_bank_count > 128 { 0xFF } else { 0x7F };
        Mbc3 { rom_bank: 1, ram_bank: 1, ram_enabled: false, rtc_latch: false, rom_bank_mask }
    }

    /// The ROM bank that the switchable ROM window shows.
    pub fn rom_bank(&self) -> (b: u8)
        ensures
            b == self@.rom_bank,
            self@.wf(),
    {
        proof {
            use_type_invariant(self);
        }
        self.rom_bank
    }

    /// The mask of ROM bank bits.
    pub fn rom_bank_mask(&self) -> (m: u8)
        ensures
            m == self@.rom_bank_mask,
    {
        self.rom_bank_mask
    }

    /// Whether the RAM window is enabled.
    pub fn ram_enabled(&self) -> (b: bool)
        ensures
            b == self@.ram_enabled,
    {
        self.ram_enabled
    }

    /// The Game Boy wrote `data` to `addr`.
    pub fn write(&mut self, addr: u32, data: u8) -> (eff: BusEffects)
        ensures
            final(self)@ == old(self)@.after_write(addr, data),
            eff == old(self)@.write_effects(addr, data),
            final(self)@.wf(),
    {
        let ghost pre = self@;
        proof {
            use_type_invariant(&*self);
            lemma_u8_masks(data);
            lemma_u8_masks(self.ram_bank);
            lemma_register_decode(addr);
        }
        let mut rom_bank_new = self.rom_bank;
        let mut ram_bank = self.ram_bank;
        let mut ram_enabled = self.ram_enabled;
        let mut rtc_latch = self.rtc_latch;
        let mut eff = BusEffects::none();

        match addr & 0xE000u32 {
            0x0000u32 => {
                ram_enabled = (data & 0x0F) == 0x0A;
                if ram_enabled {
                    if ram_bank & 0x08u8 == 0x08u8 {
                        eff.ram_access = Some(RamAccess::Rtc);
                    } else {
                        eff.ram_access = Some(RamAccess::ReadWrite);
                    }
                } else {
                    eff.ram_access = Some(RamAccess::Disabled);
                }
            },
            0x2000u32 => {
                rom_bank_new = data & self.rom_bank_mask;
                if rom_bank_new == 0x00 {
                    rom_bank_new = 0x01;
                }
            },
            0x4000u32 => {
                ram_bank = data;
                if ram_bank & 0x08u8 == 0x08u8 {
                    eff.rtc_register = Some(ram_bank & 0x07u8);
                    if ram_enabled {
                        eff.ram_access = Some(RamAccess::Rtc);
                    }
                } else {
                    eff.ram_bank_offset = Some((ram_bank & 0x07) as usize * 0x2000usize);
                    if ram_enabled {
                        eff.ram_access = Some(RamAccess::ReadWrite);
                    }
                }
            },
            0x6000u32 => {
                if data != 0 {
                    if !rtc_latch {
                        rtc_latch = true;
                        eff.rtc_latch = true;
                    }
                } else {
                    rtc_latch = false;
                }
            },
            _ => {},
        }

        proof {
            lemma_u8_masks(rom_bank_new);
        }
        rom_bank_new &= self.rom_bank_mask;
        if self.rom_bank != rom_bank_new {
            eff.rom_bank_offset = Some(rom_bank_new as u32 * 0x4000u32);
        }
        assert(eff == pre.write_effects(addr, data));
        *self = Mbc3 {
            rom_bank: rom_bank_new,
            ram_bank,
            ram_enabled,
            rtc_latch,
            rom_bank_mask: self.rom_bank_mask,
        };
        eff
    }

    /// No write is waiting: the clock gets to advance.
    pub fn idle(&mut self) -> (eff: BusEffects)
        ensures
            final(self)@ == old(self)@,
            eff == mbc3_idle_effects(),
    {
        let mut eff = BusEffects::none();
        eff.rtc_process = true;
        eff
    }
}

impl Mbc for Mbc3 {
    fn on_write(&mut self, addr: u32, data: u8) -> (eff: BusEffects)
        ensures
            final(self)@ == old(self)@.after_write(addr, data),
            eff == old(self)@.write_effects(addr, data),
    {
        self.write(addr, data)
    }

    fn on_idle(&mut self) -> (eff: BusEffects)
        ensures
            final(self)@ == old(self)@,
            eff == mbc3_idle_effects(),
    {
        self.idle()
    }
}

/// The ROM window follows the selected bank: a driver that carries out the
/// effects of every write keeps the ROM window at the selected bank, which is
/// never bank 0 and never has bits outside the ROM bank mask.
pub proof fn lemma_mbc3_rom_window_follows_bank(s: Mbc3View, addr: u32, data: u8)
    requires
        s.wf(),
    ensures
        s.after_write(addr, data).wf(),
        rom_window_after(s.rom_bank * 0x4000, s.write_effects(addr, data)) == s.after_write(
            addr,
            data,
        ).rom_bank * 0x4000,
        s.after_write(addr, data).rom_bank != 0,
        s.after_write(addr, data).rom_bank <= s.rom_bank_mask,
        s.after_write(addr, data).rom_bank_mask == s.rom_bank_mask,
{
}

/// The windows stay inside the cartridge: a RAM window offset is a bank
/// boundary within 64 KiB of RAM, a ROM window offset lies within 4 MiB,
/// and a clock register number is below 8.
pub proof fn lemma_mbc3_offsets_in_range(s: Mbc3View, addr: u32, data: u8)
    requires
        s.wf(),
    ensures
        s.write_effects(addr, data).ram_bank_offset matches Some(o) ==> o < 0x10000 && o
            % 0x2000 == 0,
        s.write_effects(addr, data).rom_bank_offset matches Some(o) ==> o < 0x400000 && o
            % 0x4000 == 0,
        s.write_effects(addr, data).rtc_register matches Some(r) ==> r < 8,
{
}

/// Writing the same value to the same address twice leaves the controller as
/// the first write left it; the second write neither moves the ROM window
/// nor latches the clock again.
pub proof fn lemma_mbc3_write_twice(s: Mbc3View, addr: u32, data: u8)
    requires
        s.wf(),
    ensures
        s.after_write(addr, data).after_write(addr, data) == s.after_write(addr, data),
        s.after_write(addr, data).write_effects(addr, data).rom_bank_offset is None,
        !s.after_write(addr, data).write_effects(addr, data).rtc_latch,
{
}

/// The clock latches on a non-zero write to the latch register that follows
/// a zero one, and on no other write.
pub proof fn lemma_mbc3_latch_on_rising_write(s: Mbc3View, data: u8)
    requires
        s.wf(),
    ensures
        s.after_write(0x6000, 0).write_effects(0x6000, data).rtc_latch == (data != 0),
        forall|addr: u32, d: u8| #[trigger]
            s.write_effects(addr, d).rtc_latch ==> register_of(addr) == 3 && d != 0
                && !s.rtc_latch,
{
}

/// Writes above 0x7FFF reach no register: they change nothing and ask
/// nothing of the hardware.
pub proof fn lemma_mbc3_ignores_high_writes(s: Mbc3View, addr: u32, data: u8)
    requires
        s.wf(),
        register_of(addr) >= 4,
    ensures
        s.after_write(addr, data) == s,
        s.write_effects(addr, data) == no_effects(),
{
}

/// From power-on, after any writes, the RAM window is enabled exactly when
/// the last RAM-enable write had the low nibble 0xA, the latch flag records
/// whether the last latch write was not 0, and the RAM bank register holds
/// the last value written to it (1 if none).
pub proof fn lemma_mbc3_state_after_writes(rom_bank_count: u16, writes: Seq<(u32, u8)>)
    ensures
        mbc3_power_on(rom_bank_count).after_writes(writes).wf(),
        mbc3_power_on(rom_bank_count).after_writes(writes).rom_bank_mask == mbc3_power_on(
            rom_bank_count,
        ).rom_bank_mask,
        mbc3_power_on(rom_bank_count).after_writes(writes).ram_enabled == mbc3_enabled_by(writes),
        mbc3_power_on(rom_bank_count).after_writes(writes).rtc_latch == mbc3_latched_by(writes),
        mbc3_power_on(rom_bank_count).after_writes(writes).ram_bank == (match last_register_write(
            writes,
            2,
        ) {
            Some(data) => data,
            None => 1u8,
        }),
    decreases writes.len(),
{
    if writes.len() > 0 {
        lemma_mbc3_state_after_writes(rom_bank_count, writes.drop_last());
        lemma_mbc3_rom_window_follows_bank(
            mbc3_power_on(rom_bank_count).after_writes(writes.drop_last()),
            writes.last().0,
            writes.last().1,
        );
    }
}

/// From power-on, after any writes, a write to the latch register latches
/// the clock exactly when its data is not 0 and the latch write before it
/// (if any) was 0; it asks nothing else of the hardware.
pub proof fn lemma_mbc3_latch_after_writes(
    rom_bank_count: u16,
    writes: Seq<(u32, u8)>,
    addr: u32,
    data: u8,
)
    requires
        register_of(addr) == 3,
    ensures
        mbc3_power_on(rom_bank_count).after_writes(writes).write_effects(addr, data) == (
        BusEffects {
            rtc_process: false,
            rtc_register: None,
            rtc_latch: data != 0 && !mbc3_latched_by(writes),
            ram_bank_offset: None,
            ram_access: None,
            rom_bank_offset: None,
        }),
{
    lemma_mbc3_state_after_writes(rom_bank_count, writes);
}

/// From power-on, after any writes, a write to the RAM bank register that
/// selects a RAM bank moves the RAM window to that bank and then, if the
/// window is enabled, opens it on RAM; one that selects a clock register
/// selects it and then, if the window is enabled, opens it on the clock.
/// Nothing else is asked of the hardware.
pub proof fn lemma_mbc3_ram_bank_after_writes(
    rom_bank_count: u16,
    writes: Seq<(u32, u8)>,
    addr: u32,
    data: u8,
)
    requires
        register_of(addr) == 2,
    ensures
        (data / 8) % 2 == 0 ==> mbc3_power_on(rom_bank_count).after_writes(writes).write_effects(
            addr,
            data,
        ) == (BusEffects {
            rtc_process: false,
            rtc_register: None,
            rtc_latch: false,
            ram_bank_offset: Some(((data % 8) * 0x2000) as usize),
            ram_access: if mbc3_enabled_by(writes) {
                Some(RamAccess::ReadWrite)
            } else {
                None
            },
            rom_bank_offset: None,
        }),
        (data / 8) % 2 == 1 ==> mbc3_power_on(rom_bank_count).after_writes(writes).write_effects(
            addr,
            data,
        ) == (BusEffects {
            rtc_process: false,
            rtc_register: Some(data % 8),
            rtc_latch: false,
            ram_bank_offset: None,
            ram_access: if mbc3_enabled_by(writes) {
                Some(RamAccess::Rtc)
            } else {
                None
            },
            rom_bank_offset: None,
        }),
{
    lemma_mbc3_state_after_writes(rom_bank_count, writes);
}

/// From power-on, after any writes, a write to 0x0000-0x1FFF opens the RAM
/// window when the low nibble of its data is 0xA, and closes it otherwise.
/// It opens it on the clock exactly when bit 3 of the value last written to
/// the RAM bank register (1 after power-on) is set, and on RAM otherwise.
/// Nothing else is asked of the hardware.
pub proof fn lemma_mbc3_ram_enable_after_writes(
    rom_bank_count: u16,
    writes: Seq<(u32, u8)>,
    addr: u32,
    data: u8,
)
    requires
        addr as int % 0x10000 < 0x2000,
    ensures
        ({
            let bank: u8 = match last_register_write(writes, 2) {
                Some(d) => d,
                None => 1u8,
            };
            mbc3_power_on(rom_bank_count).after_writes(writes).write_effects(addr, data) == (
            BusEffects {
                rtc_process: false,
                rtc_register: None,
                rtc_latch: false,
                ram_bank_offset: None,
                ram_access: Some(
                    if data % 16 != 0xA {
                        RamAccess::Disabled
                    } else if (bank / 8) % 2 == 1 {
                        RamAccess::Rtc
                    } else {
                        RamAccess::ReadWrite
                    },
                ),
                rom_bank_offset: None,
            })
        }),
        mbc3_power_on(rom_bank_count).after_writes(writes).after_write(addr, data).ram_enabled == (
        data % 16 == 0xA),
{
    lemma_mbc3_state_after_writes(rom_bank_count, writes);
}

/// From power-on, after any writes, the ROM bank is the value last written
/// to 0x2000-0x3FFF, keeping all eight bits on a ROM of more than 128 banks
/// and the low seven otherwise, with 0 read as 1 (and 1 when there was no
/// such write). No other value is changed: bank 0x20, 0x40 or 0x60 is
/// selected as written.
pub proof fn lemma_mbc3_rom_bank_after_writes(rom_bank_count: u16, writes: Seq<(u32, u8)>)
    ensures
        mbc3_power_on(rom_bank_count).after_writes(writes).rom_bank == (match last_register_write(
            writes,
            1,
        ) {
            Some(d) => {
                let b = if rom_bank_count > 128 {
                    d as int
                } else {
                    d as int % 128
                };
                if b == 0 {
                    1
                } else {
                    b
                }
            },
            None => 1,
        }),
    decreases writes.len(),
{
    if writes.len() > 0 {
        lemma_mbc3_rom_bank_after_writes(rom_bank_count, writes.drop_last());
        lemma_mbc3_state_after_writes(rom_bank_count, writes.drop_last());
    }
}

/// Idle bus time asks only that the clock advance, and changes nothing.
pub proof fn lemma_mbc3_idle_advances_clock()
    ensures
        mbc3_idle_effects() == (BusEffects {
            rtc_process: true,
            rtc_register: None,
            rtc_latch: false,
            ram_bank_offset: None,
            ram_access: None,
            rom_bank_offset: None,
        }),
{
}

} // verus!
