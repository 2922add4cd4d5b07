//! The MBC1 controller: up to 32 ROM banks selected by five low bits and two
//! high bits, and four RAM banks reachable in the RAM banking mode.
use vstd::prelude::*;
use crate::bits::{lemma_register_decode, lemma_u8_masks};
use crate::bus::{
    last_register_write, no_effects, ram_enable_access, register_of, rom_window_after, BusEffects, Mbc, RamAccess,
};

verus! {

/// The registers of an MBC1 as plain values.
pub struct Mbc1View {
    /// The ROM bank the switchable ROM window shows.
    pub rom_bank: u8,
    /// The five low bank bits (never 0).
    pub rom_bank_low: u8,
    /// The two high bank bits.
    pub rom_bank_high: u8,
    /// 0: ROM banking mode, 1: RAM banking mode.
    pub mode: u8,
}

impl Mbc1View {
    /// The ROM bank that the bank registers select: in ROM banking mode the
    /// high bits extend the low ones, and the bank number keeps six bits.
    pub open spec fn selected_rom_bank(self) -> int {
        (if self.mode == 0 {
            32 * self.rom_bank_high + self.rom_bank_low
        } else {
            self.rom_bank_low as int
        }) % 64
    }

    pub open spec fn wf(self) -> bool {
        &&& 1 <= self.rom_bank_low <= 0x1F
        &&& self.rom_bank_high <= 3
        &&& self.mode <= 1
        &&& self.rom_bank == self.selected_rom_bank()
    }

    /// The bank registers after a write, before the ROM window follows them.
    pub open spec fn registers_after_write(self, addr: u32, data: u8) -> Mbc1View {
        let r = register_of(addr);
        if r == 1 {
            Mbc1View {
                rom_bank_low: (if data % 32 == 0 { 1 } else { data % 32 }) as u8,
                ..self
            }
        } else if r == 2 && self.mode == 0 {
            Mbc1View { rom_bank_high: (data % 4) as u8, ..self }
        } else if r == 3 {
            Mbc1View { mode: (data % 2) as u8, ..self }
        } else {
            self
        }
    }

    /// The controller after a write: the ROM window shows the newly selected bank.
    pub open spec fn after_write(self, addr: u32, data: u8) -> Mbc1View {
        let regs = self.registers_after_write(addr, data);
        Mbc1View { rom_bank: regs.selected_rom_bank() as u8, ..regs }
    }

    /// What a write asks of the hardware: 0x0000-0x1FFF opens or closes the
    /// RAM window, 0x4000-0x5FFF in RAM banking mode moves the RAM window,
    /// and the ROM window moves whenever the selected bank changes.
    pub open spec fn write_effects(self, addr: u32, data: u8) -> BusEffects {
        let r = register_of(addr);
        let next = self.after_write(addr, data);
        BusEffects {
            ram_access: if r == 0 { Some(ram_enable_access(data)) } else { None },
            ram_bank_offset: if r == 2 && self.mode != 0 {
                Some(((data % 4) * 0x2000) as usize)
            } else {
                None
            },
            rom_bank_offset: if next.rom_bank != self.rom_bank {
                Some((next.rom_bank * 0x4000) as u32)
            } else {
                None
            },
            ..no_effects()
        }
    }
}

impl Mbc1View {
    /// The controller after the writes in `writes`, one after the other.
    pub open spec fn after_writes(self, writes: Seq<(u32, u8)>) -> Mbc1View
        decreases writes.len(),
    {
        if writes.len() == 0 {
            self
        } else {
            self.after_writes(writes.drop_last()).after_write(writes.last().0, writes.last().1)
        }
    }

    /// The ROM window offsets that the writes in `writes` ask for, in order.
    pub open spec fn rom_offsets(self, writes: Seq<(u32, u8)>) -> Seq<u32>
        decreases writes.len(),
    {
        if writes.len() == 0 {
            Seq::empty()
        } else {
            let earlier = self.rom_offsets(writes.drop_last());
            let before = self.after_writes(writes.drop_last());
            match before.write_effects(writes.last().0, writes.last().1).rom_bank_offset {
                Some(offset) => earlier.push(offset),
                None => earlier,
            }
        }
    }
}

/// An MBC1 after power-on.
pub open spec fn mbc1_power_on() -> Mbc1View {
    Mbc1View { rom_bank: 1, rom_bank_low: 1, rom_bank_high: 0, mode: 0 }
}

/// The low bank bits after `writes`: the five low bits of the last write to
/// 0x2000-0x3FFF, with 0 read as 1; 1 if there was none.
pub open spec fn mbc1_low_bits(writes: Seq<(u32, u8)>) -> int {
    match last_register_write(writes, 1) {
        Some(data) => if data % 32 == 0 { 1 } else { data as int % 32 },
        None => 1,
    }
}

/// The banking mode after `writes`: bit 0 of the last write to 0x6000-0x7FFF;
/// 0 if there was none.
pub open spec fn mbc1_mode_bits(writes: Seq<(u32, u8)>) -> int {
    match last_register_write(writes, 3) {
        Some(data) => data as int % 2,
        None => 0,
    }
}

/// The high bank bits after `writes`: the two low bits of the last write to
/// 0x4000-0x5FFF made in ROM banking mode; 0 if there was none.
pub open spec fn mbc1_high_bits(writes: Seq<(u32, u8)>) -> int
    decreases writes.len(),
{
    if writes.len() == 0 {
        0
    } else if register_of(writes.last().0) == 2 && mbc1_mode_bits(writes.drop_last()) == 0 {
        writes.last().1 as int % 4
    } else {
        mbc1_high_bits(writes.drop_last())
    }
}

/// The MBC1 bank controller.
pub struct Mbc1 {
    rom_bank: u8,
    rom_bank_low: u8,
    rom_bank_high: u8,
    mode: u8,
}

impl View for Mbc1 {
    type V = Mbc1View;

    closed spec fn view(&self) -> Mbc1View {
        Mbc1View {
            rom_bank: self.rom_bank,
            rom_bank_low: self.rom_bank_low,
            rom_bank_high: self.rom_bank_high,
            mode: self.mode,
        }
    }
}

/// The six-bit bank number that the two bank registers select.
proof fn lemma_mbc1_select(high: u8, low: u8)
    requires
        high <= 3,
        low <= 0x1F,
    ensures
        ((high << 5u8) | low) & 0x3F == (32 * high + low) % 64,
        low & 0x3F == low % 64,
{
    assert(((high << 5u8) | low) & 0x3F == (32 * high + low) % 64 && low & 0x3F == low % 64)
        by (bit_vector)
        requires
            high <= 3,
            low <= 0x1F,
    ;
}

impl Mbc1 {
    #[verifier::type_invariant]
    spec fn inv(self) -> bool {
        self@.wf()
    }

    /// A controller after power-on: bank 1 in ROM banking mode.
    pub fn new() -> (m: Mbc1)
        ensures
            m@ == mbc1_power_on(),
            m@.wf(),
    {
        Mbc1 { rom_bank: 1, rom_bank_low: 1, rom_bank_high: 0, mode: 0 }
    }

    /// The ROM bank that the switchable ROM window shows.
    pub fn rom_bank(&self) -> (b: u8)
        ensures
            b == self@.rom_bank,
            self@.wf(),
    {
        proof {
            use_type_invariant(self);
        }
        self.rom_bank
    }

    /// The banking mode: 0 for ROM banking, 1 for RAM banking.
    pub fn mode(&self) -> (m: u8)
        ensures
            m == self@.mode,
    {
        self.mode
    }

    /// The Game Boy wrote `data` to `addr`.
    pub fn write(&mut self, addr: u32, data: u8) -> (eff: BusEffects)
        ensures
            final(self)@ == old(self)@.after_write(addr, data),
            eff == old(self)@.write_effects(addr, data),
            final(self)@.wf(),
    {
        proof {
            use_type_invariant(&*self);
            lemma_u8_masks(data);
            lemma_register_decode(addr);
        }
        let mut rom_bank_low = self.rom_bank_low;
        let mut rom_bank_high = self.rom_bank_high;
        let mut mode = self.mode;
        let mut eff = BusEffects::none();

        match addr & 0xE000u32 {
            0x0000u32 => {
                let ram_enabled = (data & 0x0F) == 0x0A;
                eff.ram_access = Some(
                    if ram_enabled {
                        RamAccess::ReadWrite
                    } else {
                        RamAccess::Disabled
                    },
                );
            },
            0x2000u32 => {
                rom_bank_low = data & 0x1f;
                if rom_bank_low == 0 {
                    rom_bank_low += 1;
                }
            },
            0x4000u32 => {
                if mode != 0 {
                    eff.ram_bank_offset = Some((data & 0x03) as usize * 0x2000usize);
                } else {
                    rom_bank_high = data & 0x03u8;
                }
            },
            0x6000u32 => {
                mode = data & 1u8;
            },
            _ => {},
        }

        proof {
            lemma_mbc1_select(rom_bank_high, rom_bank_low);
        }
        let rom_bank_new = if mode == 0 {
            (rom_bank_high << 5u8) | rom_bank_low
        } else {
            rom_bank_low
        } & 0x3Fu8;

        if self.rom_bank != rom_bank_new {
            eff.rom_bank_offset = Some(rom_bank_new as u32 * 0x4000u32);
        }
        *self = Mbc1 { rom_bank: rom_bank_new, rom_bank_low, rom_bank_high, mode };
        eff
    }
}

impl Mbc for Mbc1 {
    fn on_write(&mut self, addr: u32, data: u8) -> (eff: BusEffects)
        ensures
            final(self)@ == old(self)@.after_write(addr, data),
            eff == old(self)@.write_effects(addr, data),
    {
        self.write(addr, data)
    }

    fn on_idle(&mut self) -> (eff: BusEffects)
        ensures
            final(self)@ == old(self)@,
            eff == no_effects(),
    {
        BusEffects::none()
    }
}

/// The ROM window follows the selected bank: a driver that carries out the
/// effects of every write keeps the ROM window at the selected bank, and a
/// selected bank is never 0 nor any bank 0x20, 0x40 or 0x60 (it keeps six bits).
pub proof fn lemma_mbc1_rom_window_follows_bank(s: Mbc1View, addr: u32, data: u8)
    requires
        s.wf(),
    ensures
        s.after_write(addr, data).wf(),
        rom_window_after(s.rom_bank * 0x4000, s.write_effects(addr, data)) == s.after_write(
            addr,
            data,
        ).rom_bank * 0x4000,
        s.after_write(addr, data).rom_bank % 32 != 0,
        s.after_write(addr, data).rom_bank < 64,
{
}

/// The windows stay inside the cartridge: a RAM window offset is a bank
/// boundary within 32 KiB of RAM, a ROM window offset lies within 1 MiB.
pub proof fn lemma_mbc1_offsets_in_range(s: Mbc1View, addr: u32, data: u8)
    requires
        s.wf(),
    ensures
        s.write_effects(addr, data).ram_bank_offset matches Some(o) ==> o < 0x8000 && o % 0x2000
            == 0,
        s.write_effects(addr, data).rom_bank_offset matches Some(o) ==> o < 0x100000 && o
            % 0x4000 == 0,
{
}

/// Writing the same value to the same address twice moves the ROM window at
/// most once, and leaves the controller as the first write left it.
pub proof fn lemma_mbc1_write_twice(s: Mbc1View, addr: u32, data: u8)
    requires
        s.wf(),
    ensures
        s.after_write(addr, data).after_write(addr, data) == s.after_write(addr, data),
        s.after_write(addr, data).write_effects(addr, data).rom_bank_offset is None,
{
}

/// Writes above 0x7FFF reach no register: they change nothing and ask
/// nothing of the hardware.
pub proof fn lemma_mbc1_ignores_high_writes(s: Mbc1View, addr: u32, data: u8)
    requires
        s.wf(),
        register_of(addr) >= 4,
    ensures
        s.after_write(addr, data) == s,
        s.write_effects(addr, data) == no_effects(),
{
}

/// From power-on, after any writes, the bank registers hold what the last
/// writes to them left (the high bits only from writes made in ROM banking
/// mode), and the selected bank is `(32 * high + low) % 64` in ROM banking
/// mode and `low` in RAM banking mode.
pub proof fn lemma_mbc1_bank_after_writes(writes: Seq<(u32, u8)>)
    ensures
        mbc1_power_on().after_writes(writes).wf(),
        mbc1_power_on().after_writes(writes).rom_bank_low == mbc1_low_bits(writes),
        mbc1_power_on().after_writes(writes).rom_bank_high == mbc1_high_bits(writes),
        mbc1_power_on().after_writes(writes).mode == mbc1_mode_bits(writes),
        mbc1_power_on().after_writes(writes).rom_bank == (if mbc1_mode_bits(writes) == 0 {
            32 * mbc1_high_bits(writes) + mbc1_low_bits(writes)
        } else {
            mbc1_low_bits(writes)
        }) % 64,
    decreases writes.len(),
{
    if writes.len() > 0 {
        lemma_mbc1_bank_after_writes(writes.drop_last());
    }
}

/// From power-on, over any writes, the ROM window is moved only to a new
/// bank: every offset asked for is that of a bank below 64 that is not 0,
/// 0x20 or any multiple of 0x20; no offset repeats the one before it, the
/// first is not that of bank 1, and the last is that of the selected bank
/// (which is bank 1 while none was asked for).
pub proof fn lemma_mbc1_rom_offsets(writes: Seq<(u32, u8)>)
    ensures
        forall|k: int|
            0 <= k < mbc1_power_on().rom_offsets(writes).len() ==> {
                let offset = #[trigger] mbc1_power_on().rom_offsets(writes)[k];
                &&& offset % 0x4000 == 0
                &&& offset / 0x4000 < 64
                &&& (offset / 0x4000) % 32 != 0
            },
        forall|k: int|
            0 < k < mbc1_power_on().rom_offsets(writes).len() ==> #[trigger] mbc1_power_on().rom_offsets(
                writes,
            )[k] != mbc1_power_on().rom_offsets(writes)[k - 1],
        mbc1_power_on().rom_offsets(writes).len() > 0 ==> mbc1_power_on().rom_offsets(writes)[0]
            != 0x4000,
        mbc1_power_on().rom_offsets(writes).len() > 0 ==> mbc1_power_on().rom_offsets(
            writes,
        ).last() == mbc1_power_on().after_writes(writes).rom_bank * 0x4000,
        mbc1_power_on().rom_offsets(writes).len() == 0 ==> mbc1_power_on().after_writes(
            writes,
        ).rom_bank == 1,
    decreases writes.len(),
{
    if writes.len() > 0 {
        let prefix = writes.drop_last();
        lemma_mbc1_rom_offsets(prefix);
        lemma_mbc1_bank_after_writes(prefix);
        lemma_mbc1_rom_window_follows_bank(
            mbc1_power_on().after_writes(prefix),
            writes.last().0,
            writes.last().1,
        );
    }
}

/// A write to 0x4000-0x5FFF in RAM banking mode moves the RAM window to RAM
/// bank `data % 4` (at byte offset `(data % 4) * 0x2000`, bank 0 included)
/// and asks nothing else; in ROM banking mode it sets the high bank bits to
/// `data % 4` and never moves the RAM window.
pub proof fn lemma_mbc1_bank_register_write(s: Mbc1View, addr: u32, data: u8)
    requires
        s.wf(),
        0x4000 <= addr as int % 0x10000 < 0x6000,
    ensures
        s.mode != 0 ==> s.write_effects(addr, data) == (BusEffects {
            rtc_process: false,
            rtc_register: None,
            rtc_latch: false,
            ram_bank_offset: Some(((data % 4) * 0x2000) as usize),
            ram_access: None,
            rom_bank_offset: None,
        }),
        s.mode != 0 ==> s.after_write(addr, data) == s,
        s.mode == 0 ==> s.write_effects(addr, data).ram_bank_offset is None,
        s.mode == 0 ==> s.write_effects(addr, data).ram_access is None,
        s.mode == 0 ==> s.after_write(addr, data) == (Mbc1View {
            rom_bank: ((32 * (data % 4) + s.rom_bank_low) % 64) as u8,
            rom_bank_high: data % 4,
            ..s
        }),
{
}

/// A write to 0x0000-0x1FFF opens the RAM window when the low nibble of its
/// data is 0xA and closes it otherwise; it changes no register and moves no
/// window.
pub proof fn lemma_mbc1_ram_enable_write(s: Mbc1View, addr: u32, data: u8)
    requires
        s.wf(),
        addr as int % 0x10000 < 0x2000,
    ensures
        s.write_effects(addr, data) == (BusEffects {
            rtc_process: false,
            rtc_register: None,
            rtc_latch: false,
            ram_bank_offset: None,
            ram_access: Some(
                if data % 16 == 0xA {
                    RamAccess::ReadWrite
                } else {
                    RamAccess::Disabled
                },
            ),
            rom_bank_offset: None,
        }),
        s.after_write(addr, data) == s,
{
}

/// A write to 0x2000-0x3FFF sets the low bank bits to the five low bits of
/// its data (0 read as 1), and a write to 0x6000-0x7FFF sets the banking
/// mode to bit 0 of its data. Either way the selected bank becomes
/// `(32 * high + low) % 64` in ROM banking mode and `low` in RAM banking
/// mode, the ROM window moves to it exactly when it changes, and nothing
/// else is asked.
pub proof fn lemma_mbc1_low_and_mode_writes(s: Mbc1View, addr: u32, data: u8)
    requires
        s.wf(),
        0x2000 <= addr as int % 0x10000 < 0x4000 || 0x6000 <= addr as int % 0x10000 < 0x8000,
    ensures
        ({
            let low: int = if 0x2000 <= addr as int % 0x10000 < 0x4000 {
                if data % 32 == 0 {
                    1
                } else {
                    data as int % 32
                }
            } else {
                s.rom_bank_low as int
            };
            let mode: int = if 0x6000 <= addr as int % 0x10000 {
                data as int % 2
            } else {
                s.mode as int
            };
            let bank: int = if mode == 0 {
                (32 * s.rom_bank_high + low) % 64
            } else {
                low
            };
            &&& s.after_write(addr, data) == (Mbc1View {
                rom_bank: bank as u8,
                rom_bank_low: low as u8,
                rom_bank_high: s.rom_bank_high,
                mode: mode as u8,
            })
            &&& s.write_effects(addr, data) == (BusEffects {
                rtc_process: false,
                rtc_register: None,
                rtc_latch: false,
                ram_bank_offset: None,
                ram_access: None,
                rom_bank_offset: if bank == s.rom_bank {
                    None
                } else {
                    Some((bank * 0x4000) as u32)
                },
            })
        }),
{
}

} // verus!
