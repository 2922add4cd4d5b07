//! The MBC5 controller: nine ROM bank bits written in two parts, and a RAM
//! bank register.
use vstd::prelude::*;
use crate::bits::{lemma_register_decode, lemma_u8_masks};
use crate::bus::{
    no_effects, ram_enable_access, ram_window_after, rom_window_after, BusEffects, Mbc, RamAccess,
};

verus! {

/// The 4 KiB page (0 to 15) of the cartridge address space that a write to
/// `addr` reaches: the MBC5 decodes the address lines A12 to A15.
pub open spec fn page_of(addr: u32) -> int {
    (addr as int % 0x10000) / 0x1000
}

/// The registers of an MBC5 as plain values.
pub struct Mbc5View {
    /// The ROM bank the switchable ROM window shows (nine bits).
    pub rom_bank: u16,
    /// The selected RAM bank (four bits).
    pub ram_bank: u8,
}

impl Mbc5View {
    pub open spec fn wf(self) -> bool {
        &&& self.rom_bank <= 0x1FF
        &&& self.ram_bank <= 0x0F
    }

    /// The controller after a write: 0x2000-0x2FFF sets the low eight ROM
    /// bank bits, 0x3000-0x3FFF the ninth, 0x4000-0x4FFF the RAM bank.
    pub open spec fn after_write(self, addr: u32, data: u8) -> Mbc5View {
        let p = page_of(addr);
        if p == 2 {
            Mbc5View { rom_bank: ((self.rom_bank / 256) * 256 + data) as u16, ..self }
        } else if p == 3 {
            Mbc5View { rom_bank: (self.rom_bank % 256 + (data % 2) * 256) as u16, ..self }
        } else if p == 4 {
            Mbc5View { ram_bank: (data % 16) as u8, ..self }
        } else {
            self
        }
    }

    /// What a write asks of the hardware: 0x0000-0x1FFF opens or closes the
    /// RAM window; the ROM window moves when the ROM bank changes, and the RAM
    /// window moves to RAM bank `ram_bank % 4` when the RAM bank changes.
    pub open spec fn write_effects(self, addr: u32, data: u8) -> BusEffects {
        let p = page_of(addr);
        let next = self.after_write(addr, data);
        BusEffects {
            ram_access: if p == 0 || p == 1 { Some(ram_enable_access(data)) } else { None },
            ram_bank_offset: if next.ram_bank != self.ram_bank {
                Some(((next.ram_bank % 4) * 0x2000) as usize)
            } else {
                None
            },
            rom_bank_offset: if next.rom_bank != self.rom_bank {
                Some((next.rom_bank * 0x4000) as u32)
            } else {
                None
            },
            ..no_effects()
        }
    }
}

impl Mbc5View {
    /// The controller after the writes in `writes`, one after the other.
    pub open spec fn after_writes(self, writes: Seq<(u32, u8)>) -> Mbc5View
        decreases writes.len(),
    {
        if writes.len() == 0 {
            self
        } else {
            self.after_writes(writes.drop_last()).after_write(writes.last().0, writes.last().1)
        }
    }

    /// The ROM window offsets that the writes in `writes` ask for, in order.
    pub open spec fn rom_offsets(self, writes: Seq<(u32, u8)>) -> Seq<u32>
        decreases writes.len(),
    {
        if writes.len() == 0 {
            Seq::empty()
        } else {
            let earlier = self.rom_offsets(writes.drop_last());
            let before = self.after_writes(writes.drop_last());
            match before.write_effects(writes.last().0, writes.last().1).rom_bank_offset {
                Some(offset) => earlier.push(offset),
                None => earlier,
            }
        }
    }
}

/// An MBC5 after power-on.
pub open spec fn mbc5_power_on() -> Mbc5View {
    Mbc5View { rom_bank: 1, ram_bank: 1 }
}

/// The data of the last write in `writes` to page `p` (see `page_of`), if any.
pub open spec fn last_page_write(writes: Seq<(u32, u8)>, p: int) -> Option<u8>
    decreases writes.len(),
{
    if writes.len() == 0 {
        None
    } else if page_of(writes.last().0) == p {
        Some(writes.last().1)
    } else {
        last_page_write(writes.drop_last(), p)
    }
}

/// The low eight ROM bank bits after `writes`: the last write to
/// 0x2000-0x2FFF; 1 if there was none.
pub open spec fn mbc5_low_byte(writes: Seq<(u32, u8)>) -> int {
    match last_page_write(writes, 2) {
        Some(data) => data as int,
        None => 1,
    }
}

/// The ninth ROM bank bit after `writes`: bit 0 of the last write to
/// 0x3000-0x3FFF; 0 if there was none.
pub open spec fn mbc5_high_bit(writes: Seq<(u32, u8)>) -> int {
    match last_page_write(writes, 3) {
        Some(data) => data as int % 2,
        None => 0,
    }
}

/// The MBC5 bank controller.
pub struct Mbc5 {
    rom_bank: u16,
    ram_bank: u8,
}

impl View for Mbc5 {
    type V = Mbc5View;

    closed spec fn view(&self) -> Mbc5View {
        Mbc5View { rom_bank: self.rom_bank, ram_bank: self.ram_bank }
    }
}

/// Writing one part of the nine-bit ROM bank number keeps the other part.
proof fn lemma_mbc5_rom_bank(rom_bank: u16, data: u8)
    requires
        rom_bank <= 0x1FF,
    ensures
        (rom_bank & 0x0100) | (data as u16) == (rom_bank / 256) * 256 + data,
        (rom_bank & 0x00FF) | (((data as u16) << 8u16) & 0x0100) == rom_bank % 256 + (data % 2)
            * 256,
        ((rom_bank & 0x0100) | (data as u16)) <= 0x1FF,
        ((rom_bank & 0x00FF) | (((data as u16) << 8u16) & 0x0100)) <= 0x1FF,
        rom_bank & 0x1FF == rom_bank,
{
    assert((rom_bank & 0x0100) | (data as u16) == (rom_bank / 256) * 256 + data
        && (rom_bank & 0x00FF) | (((data as u16) << 8u16) & 0x0100) == rom_bank % 256 + (data
        % 2) * 256 && ((rom_bank & 0x0100) | (data as u16)) <= 0x1FF && ((rom_bank & 0x00FF) | (((
    data as u16) << 8u16) & 0x0100)) <= 0x1FF && rom_bank & 0x1FF == rom_bank) by (bit_vector)
        requires
            rom_bank <= 0x1FF,
    ;
}

impl Mbc5 {
    #[verifier::type_invariant]
    spec fn inv(self) -> bool {
        self@.wf()
    }

    /// A controller after power-on: ROM bank 1, RAM bank 1.
    pub fn new() -> (m: Mbc5)
        ensures
            m@ == mbc5_power_on(),
            m@.wf(),
    {
        Mbc5 { rom_bank: 1, ram_bank: 1 }
    }

    /// The ROM bank that the switchable ROM window shows.
    pub fn rom_bank(&self) -> (b: u16)
        ensures
            b == self@.rom_bank,
            self@.wf(),
    {
        proof {
            use_type_invariant(self);
        }
        self.rom_bank
    }

    /// The selected RAM bank.
    pub fn ram_bank(&self) -> (b: u8)
        ensures
            b == self@.ram_bank,
            self@.wf(),
    {
        proof {
            use_type_invariant(self);
        }
        self.ram_bank
    }

    /// The Game Boy wrote `data` to `addr`.
    pub fn write(&mut self, addr: u32, data: u8) -> (eff: BusEffects)
        ensures
            final(self)@ == old(self)@.after_write(addr, data),
            eff == old(self)@.write_effects(addr, data),
            final(self)@.wf(),
    {
        proof {
            use_type_invariant(&*self);
            lemma_u8_masks(data);
            lemma_register_decode(addr);
            lemma_mbc5_rom_bank(self.rom_bank, data);
        }
        let rom_bank = self.rom_bank;
        let ram_bank = self.ram_bank;
        let mut rom_bank_new = rom_bank;
        let mut ram_bank_new = ram_bank;
        let mut eff = BusEffects::none();

        let rom_bank_mask = 0x1FFu16;
        let ram_bank_mask = 0x0Fu8;

        match addr & 0xF000u32 {
            0x0000u32 | 0x1000u32 => {
                let ram_enabled = (data & 0x0F) == 0x0A;
                eff.ram_access = Some(
                    if ram_enabled {
                        RamAccess::ReadWrite
                    } else {
                        RamAccess::Disabled
                    },
                );
            },
            0x2000u32 => {
                rom_bank_new = (rom_bank & 0x0100) | data as u16;
            },
            0x3000u32 => {
                rom_bank_new = (rom_bank & 0x00FF) | (((data as u16) << 8u16) & 0x0100);
            },
            0x4000u32 => {
                ram_bank_new = data & 0x0F;
            },
            _ => {},
        }

        proof {
            lemma_mbc5_rom_bank(rom_bank_new, data);
            lemma_u8_masks(ram_bank_new);
        }
        rom_bank_new = rom_bank_new & rom_bank_mask;
        ram_bank_new = ram_bank_new & ram_bank_mask;

        if rom_bank != rom_bank_new {
            eff.rom_bank_offset = Some(rom_bank_new as u32 * 0x4000u32);
        }
        if ram_bank != ram_bank_new {
            proof {
                lemma_u8_masks(ram_bank_new);
            }
            eff.ram_bank_offset = Some((ram_bank_new & 0x03) as usize * 0x2000usize);
        }
        *self = Mbc5 { rom_bank: rom_bank_new, ram_bank: ram_bank_new };
        eff
    }
}

impl Mbc for Mbc5 {
    fn on_write(&mut self, addr: u32, data: u8) -> (eff: BusEffects)
        ensures
            final(self)@ == old(self)@.after_write(addr, data),
            eff == old(self)@.write_effects(addr, data),
    {
        self.write(addr, data)
    }

    fn on_idle(&mut self) -> (eff: BusEffects)
        ensures
            final(self)@ == old(self)@,
            eff == no_effects(),
    {
        BusEffects::none()
    }
}

/// The windows follow the banks: a driver that carries out the effects of
/// every write keeps the ROM window at the ROM bank and the RAM window at
/// RAM bank `ram_bank % 4`.
pub proof fn lemma_mbc5_windows_follow_banks(s: Mbc5View, addr: u32, data: u8)
    requires
        s.wf(),
    ensures
        s.after_write(addr, data).wf(),
        rom_window_after(s.rom_bank * 0x4000, s.write_effects(addr, data)) == s.after_write(
            addr,
            data,
        ).rom_bank * 0x4000,
        ram_window_after((s.ram_bank % 4) * 0x2000, s.write_effects(addr, data)) == (s.after_write(
            addr,
            data,
        ).ram_bank % 4) * 0x2000,
{
}

/// The windows stay inside the cartridge: a RAM window offset is a bank
/// boundary within 32 KiB of RAM, a ROM window offset lies within 8 MiB.
pub proof fn lemma_mbc5_offsets_in_range(s: Mbc5View, addr: u32, data: u8)
    requires
        s.wf(),
    ensures
        s.write_effects(addr, data).ram_bank_offset matches Some(o) ==> o < 0x8000 && o % 0x2000
            == 0,
        s.write_effects(addr, data).rom_bank_offset matches Some(o) ==> o < 0x800000 && o
            % 0x4000 == 0,
{
}

/// The two parts of the ROM bank number are independent: writing the low
/// byte and then the ninth bit selects the bank they make, whatever was
/// selected before.
pub proof fn lemma_mbc5_rom_bank_parts(s: Mbc5View, low: u8, high: u8)
    requires
        s.wf(),
    ensures
        s.after_write(0x2000, low).after_write(0x3000, high).rom_bank == (high % 2) * 256 + low,
        s.after_write(0x3000, high).after_write(0x2000, low).rom_bank == (high % 2) * 256 + low,
{
}

/// Writing the same value to the same address twice moves no window the
/// second time and leaves the controller as the first write left it.
pub proof fn lemma_mbc5_write_twice(s: Mbc5View, addr: u32, data: u8)
    requires
        s.wf(),
    ensures
        s.after_write(addr, data).after_write(addr, data) == s.after_write(addr, data),
        s.after_write(addr, data).write_effects(addr, data).rom_bank_offset is None,
        s.after_write(addr, data).write_effects(addr, data).ram_bank_offset is None,
{
}

/// Writes to 0x5000 and above reach no register: they change nothing and ask
/// nothing of the hardware.
pub proof fn lemma_mbc5_ignores_other_writes(s: Mbc5View, addr: u32, data: u8)
    requires
        s.wf(),
        page_of(addr) >= 5,
    ensures
        s.after_write(addr, data) == s,
        s.write_effects(addr, data) == no_effects(),
{
}

/// From power-on, after any writes, the ROM bank is made of the last low
/// byte and the last ninth bit written: `256 * high + low`.
pub proof fn lemma_mbc5_bank_after_writes(writes: Seq<(u32, u8)>)
    ensures
        mbc5_power_on().after_writes(writes).wf(),
        mbc5_power_on().after_writes(writes).rom_bank == 256 * mbc5_high_bit(writes)
            + mbc5_low_byte(writes),
    decreases writes.len(),
{
    if writes.len() > 0 {
        lemma_mbc5_bank_after_writes(writes.drop_last());
    }
}

/// From power-on, over any writes, the ROM window is moved only to a new
/// bank: every offset asked for is that of a bank of at most nine bits; no
/// offset repeats the one before it, the first is not that of bank 1, and
/// the last is that of the selected bank (which is bank 1 while none was
/// asked for).
pub proof fn lemma_mbc5_rom_offsets(writes: Seq<(u32, u8)>)
    ensures
        forall|k: int|
            0 <= k < mbc5_power_on().rom_offsets(writes).len() ==> {
                let offset = #[trigger] mbc5_power_on().rom_offsets(writes)[k];
                &&& offset % 0x4000 == 0
                &&& offset / 0x4000 <= 0x1FF
            },
        forall|k: int|
            0 < k < mbc5_power_on().rom_offsets(writes).len() ==> #[trigger] mbc5_power_on().rom_offsets(
                writes,
            )[k] != mbc5_power_on().rom_offsets(writes)[k - 1],
        mbc5_power_on().rom_offsets(writes).len() > 0 ==> mbc5_power_on().rom_offsets(writes)[0]
            != 0x4000,
        mbc5_power_on().rom_offsets(writes).len() > 0 ==> mbc5_power_on().rom_offsets(
            writes,
        ).last() == mbc5_power_on().after_writes(writes).rom_bank * 0x4000,
        mbc5_power_on().rom_offsets(writes).len() == 0 ==> mbc5_power_on().after_writes(
            writes,
        ).rom_bank == 1,
    decreases writes.len(),
{
    if writes.len() > 0 {
        let prefix = writes.drop_last();
        lemma_mbc5_rom_offsets(prefix);
        lemma_mbc5_bank_after_writes(prefix);
        lemma_mbc5_windows_follow_banks(
            mbc5_power_on().after_writes(prefix),
            writes.last().0,
            writes.last().1,
        );
    }
}

/// From power-on, after any writes, the RAM bank is the low four bits of the
/// last write to 0x4000-0x4FFF (1 when there was none); bank 0 is selected
/// as written.
pub proof fn lemma_mbc5_ram_bank_after_writes(writes: Seq<(u32, u8)>)
    ensures
        mbc5_power_on().after_writes(writes).ram_bank == (match last_page_write(writes, 4) {
            Some(d) => d as int % 16,
            None => 1,
        }),
    decreases writes.len(),
{
    if writes.len() > 0 {
        lemma_mbc5_ram_bank_after_writes(writes.drop_last());
        lemma_mbc5_bank_after_writes(writes.drop_last());
    }
}

/// A write to 0x4000-0x4FFF selects RAM bank `data % 16`; when that differs
/// from the bank selected before, the RAM window moves to byte offset
/// `(data % 4) * 0x2000`. It asks nothing else.
pub proof fn lemma_mbc5_ram_bank_write(s: Mbc5View, addr: u32, data: u8)
    requires
        s.wf(),
        0x4000 <= addr as int % 0x10000 < 0x5000,
    ensures
        s.after_write(addr, data) == (Mbc5View { ram_bank: data % 16, ..s }),
        s.write_effects(addr, data) == (BusEffects {
            rtc_process: false,
            rtc_register: None,
            rtc_latch: false,
            ram_bank_offset: if data % 16 == s.ram_bank {
                None
            } else {
                Some(((data % 4) * 0x2000) as usize)
            },
            ram_access: None,
            rom_bank_offset: None,
        }),
{
}

/// A write to 0x0000-0x1FFF opens the RAM window when the low nibble of its
/// data is 0xA and closes it otherwise; it changes no bank and moves no
/// window.
pub proof fn lemma_mbc5_ram_enable_write(s: Mbc5View, addr: u32, data: u8)
    requires
        s.wf(),
        addr as int % 0x10000 < 0x2000,
    ensures
        s.write_effects(addr, data) == (BusEffects {
            rtc_process: false,
            rtc_register: None,
            rtc_latch: false,
            ram_bank_offset: None,
            ram_access: Some(
                if data % 16 == 0xA {
                    RamAccess::ReadWrite
                } else {
                    RamAccess::Disabled
                },
            ),
            rom_bank_offset: None,
        }),
        s.after_write(addr, data) == s,
{
}

} // verus!
