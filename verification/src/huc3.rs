//! The HuC3 controller: seven ROM bank bits, four RAM banks, and a small
//! command interface to 256 nibbles of clock memory, driven through I/O
//! registers that the Game Boy reaches in the RAM window.
use vstd::prelude::*;
use crate::bits::{
    lemma_huc3_address, lemma_huc3_command, lemma_huc3_response, lemma_register_decode,
    lemma_u8_masks,
};
use crate::bus::{
    last_register_write, no_effects, ram_window_after, register_of, rom_window_after, BusEffects, Huc3Register, Mbc,
    RamAccess,
};

verus! {

/// The state of a HuC3 as plain values.
pub struct Huc3View {
    pub command_arg: u8,
    pub response: u8,
    pub semaphore: u8,
    pub ir: u8,
    /// The clock memory, 256 cells.
    pub rtc_memory: Seq<u8>,
    /// The clock memory address that the next command uses.
    pub rtc_addr: u8,
    /// The ROM bank the switchable ROM window shows.
    pub rom_bank: u8,
    /// The selected RAM bank.
    pub ram_bank: u8,
}

/// What the RAM window shows after a write of `data` to the RAM enable
/// register, chosen by the low nibble of the data.
pub open spec fn huc3_ram_access(data: u8) -> RamAccess {
    let n = data % 16;
    if n == 0x0 {
        RamAccess::ReadOnly
    } else if n == 0xA {
        RamAccess::ReadWrite
    } else if n == 0xB {
        RamAccess::Huc3Io(Huc3Register::CommandArg)
    } else if n == 0xC {
        RamAccess::Huc3Io(Huc3Register::Response)
    } else if n == 0xD {
        RamAccess::Huc3Io(Huc3Register::Semaphore)
    } else if n == 0xE {
        RamAccess::Huc3Io(Huc3Register::Ir)
    } else {
        RamAccess::Disabled
    }
}

impl Huc3View {
    pub open spec fn wf(self) -> bool {
        &&& self.rtc_memory.len() == 256
        &&& self.rom_bank < 128
        &&& self.ram_bank < 4
    }

    /// The Game Boy places `command_arg` in the command register and clears
    /// the low semaphore bit to ask for it; the controller then serves it.
    pub open spec fn request(self, command_arg: u8) -> Huc3View {
        Huc3View { command_arg, semaphore: 0x80, ..self }.after_process_io()
    }

    /// The value of an I/O register.
    pub open spec fn io_register(self, register: Huc3Register) -> u8 {
        match register {
            Huc3Register::CommandArg => self.command_arg,
            Huc3Register::Response => self.response,
            Huc3Register::Semaphore => self.semaphore,
            Huc3Register::Ir => self.ir,
        }
    }

    /// The I/O registers.
    pub open spec fn io_registers(self) -> Huc3Io {
        Huc3Io {
            command_arg: self.command_arg,
            response: self.response,
            semaphore: self.semaphore,
            ir: self.ir,
        }
    }

    /// The state with the I/O registers holding `io`.
    pub open spec fn with_io_registers(self, io: Huc3Io) -> Huc3View {
        Huc3View {
            command_arg: io.command_arg,
            response: io.response,
            semaphore: io.semaphore,
            ir: io.ir,
            ..self
        }
    }

    /// The state with one I/O register holding `value`.
    pub open spec fn with_io_register(self, register: Huc3Register, value: u8) -> Huc3View {
        match register {
            Huc3Register::CommandArg => Huc3View { command_arg: value, ..self },
            Huc3Register::Response => Huc3View { response: value, ..self },
            Huc3Register::Semaphore => Huc3View { semaphore: value, ..self },
            Huc3Register::Ir => Huc3View { ir: value, ..self },
        }
    }

    /// The command field (bits 4 to 6) of the command register.
    pub open spec fn command(self) -> int {
        (self.command_arg as int % 128) / 16
    }

    /// The argument field (bits 0 to 3) of the command register.
    pub open spec fn argument(self) -> int {
        self.command_arg as int % 16
    }

    /// The result nibble of the current command: command 1 reads the low
    /// nibble of the addressed clock memory cell, command 6 with argument 2
    /// answers 1.
    pub open spec fn command_result(self) -> int {
        if self.command() == 1 {
            self.rtc_memory[self.rtc_addr as int] as int % 16
        } else if self.command() == 6 && self.argument() == 2 {
            1
        } else {
            0
        }
    }

    /// The clock memory address after the current command: reads (1) and
    /// writes (3) step it, 4 sets its low nibble, 5 its high nibble.
    pub open spec fn rtc_addr_after_command(self) -> u8 {
        let cmd = self.command();
        let arg = self.argument();
        (if cmd == 1 || cmd == 3 {
            (self.rtc_addr + 1) % 256
        } else if cmd == 4 {
            (self.rtc_addr / 16) * 16 + arg
        } else if cmd == 5 {
            self.rtc_addr % 16 + arg * 16
        } else {
            self.rtc_addr as int
        }) as u8
    }

    /// The state after the command in the command register has run: the
    /// response holds 0x80, the command field and the result.
    #[verifier::opaque]
    pub open spec fn after_command(self) -> Huc3View {
        Huc3View {
            rtc_memory: if self.command() == 3 {
                self.rtc_memory.update(self.rtc_addr as int, self.argument() as u8)
            } else {
                self.rtc_memory
            },
            rtc_addr: self.rtc_addr_after_command(),
            response: (0x80 + 16 * self.command() + self.command_result()) as u8,
            ..self
        }
    }

    /// A cleared low semaphore bit asks for the command to run; the
    /// semaphore then reads 0x81 again.
    pub open spec fn after_process_io(self) -> Huc3View {
        if self.semaphore % 2 == 0 {
            Huc3View { semaphore: 0x81, ..self.after_command() }
        } else {
            self
        }
    }

    /// The bank registers after a write, before the I/O is served.
    pub open spec fn banks_after_write(self, addr: u32, data: u8) -> Huc3View {
        let r = register_of(addr);
        Huc3View {
            rom_bank: ((if r == 1 { data } else { self.rom_bank }) % 128) as u8,
            ram_bank: ((if r == 2 { data } else { self.ram_bank }) % 4) as u8,
            ..self
        }
    }

    /// The controller after a write: the banks follow the bank registers,
    /// and a pending command runs.
    pub open spec fn after_write(self, addr: u32, data: u8) -> Huc3View {
        self.banks_after_write(addr, data).after_process_io()
    }

    /// What a write asks of the hardware: 0x0000-0x1FFF switches the RAM
    /// window; the ROM and RAM windows move when their banks change.
    pub open spec fn write_effects(self, addr: u32, data: u8) -> BusEffects {
        let r = register_of(addr);
        let next = self.banks_after_write(addr, data);
        BusEffects {
            ram_access: if r == 0 { Some(huc3_ram_access(data)) } else { None },
            ram_bank_offset: if next.ram_bank != self.ram_bank {
                Some((next.ram_bank * 0x2000) as usize)
            } else {
                None
            },
            rom_bank_offset: if next.rom_bank != self.rom_bank {
                Some((next.rom_bank * 0x4000) as u32)
            } else {
                None
            },
            ..no_effects()
        }
    }
}

impl Huc3View {
    /// The controller after the writes in `writes`, one after the other.
    pub open spec fn after_writes(self, writes: Seq<(u32, u8)>) -> Huc3View
        decreases writes.len(),
    {
        if writes.len() == 0 {
            self
        } else {
            self.after_writes(writes.drop_last()).after_write(writes.last().0, writes.last().1)
        }
    }

    /// The ROM window offsets that the writes in `writes` ask for, in order.
    pub open spec fn rom_offsets(self, writes: Seq<(u32, u8)>) -> Seq<u32>
        decreases writes.len(),
    {
        if writes.len() == 0 {
            Seq::empty()
        } else {
            let earlier = self.rom_offsets(writes.drop_last());
            let before = self.after_writes(writes.drop_last());
            match before.write_effects(writes.last().0, writes.last().1).rom_bank_offset {
                Some(offset) => earlier.push(offset),
                None => earlier,
            }
        }
    }

    /// The RAM window offsets that the writes in `writes` ask for, in order.
    pub open spec fn ram_offsets(self, writes: Seq<(u32, u8)>) -> Seq<usize>
        decreases writes.len(),
    {
        if writes.len() == 0 {
            Seq::empty()
        } else {
            let earlier = self.ram_offsets(writes.drop_last());
            let before = self.after_writes(writes.drop_last());
            match before.write_effects(writes.last().0, writes.last().1).ram_bank_offset {
                Some(offset) => earlier.push(offset),
                None => earlier,
            }
        }
    }

    /// The controller after the command `command_arg` has run.
    pub open spec fn run_command(self, command_arg: u8) -> Huc3View {
        Huc3View { command_arg, ..self }.after_command()
    }
}

/// A HuC3 after power-on.
pub open spec fn huc3_power_on() -> Huc3View {
    Huc3View {
        command_arg: 0x80,
        response: 0x80,
        semaphore: 0x81,
        ir: 0x80,
        rtc_memory: Seq::new(256, |i: int| 0u8),
        rtc_addr: 0,
        rom_bank: 1,
        ram_bank: 0,
    }
}

/// The ROM bank after `writes`: the seven low bits of the last write to
/// 0x2000-0x3FFF; 1 if there was none.
pub open spec fn huc3_rom_bank_by(writes: Seq<(u32, u8)>) -> int {
    match last_register_write(writes, 1) {
        Some(data) => data as int % 128,
        None => 1,
    }
}

/// The RAM bank after `writes`: the two low bits of the last write to
/// 0x4000-0x5FFF; 0 if there was none.
pub open spec fn huc3_ram_bank_by(writes: Seq<(u32, u8)>) -> int {
    match last_register_write(writes, 2) {
        Some(data) => data as int % 4,
        None => 0,
    }
}

/// The four HuC3 I/O registers. They are open to the hardware that maps them
/// into the RAM window.
pub struct Huc3Io {
    pub command_arg: u8,
    pub response: u8,
    pub semaphore: u8,
    pub ir: u8,
}

/// Hands on a borrow of the I/O registers (Verus takes a borrow of a field
/// of `Huc3` only as the argument of a call).
fn pass_through(io: &mut Huc3Io) -> (r: &mut Huc3Io)
    ensures
        *r == *old(io),
        *final(io) == *final(r),
    no_unwind
{
    io
}

/// The HuC3 bank controller.
pub struct Huc3 {
    io: Huc3Io,
    rtc_memory: [u8; 256],
    rtc_addr: u8,
    rom_bank: u8,
    ram_bank: u8,
}

impl View for Huc3 {
    type V = Huc3View;

    closed spec fn view(&self) -> Huc3View {
        Huc3View {
            command_arg: self.io.command_arg,
            response: self.io.response,
            semaphore: self.io.semaphore,
            ir: self.io.ir,
            rtc_memory: self.rtc_memory@,
            rtc_addr: self.rtc_addr,
            rom_bank: self.rom_bank,
            ram_bank: self.ram_bank,
        }
    }
}

impl Huc3 {
    #[verifier::type_invariant]
    spec fn inv(self) -> bool {
        self@.wf()
    }

    /// A controller after power-on: idle I/O registers, cleared clock
    /// memory, ROM bank 1, RAM bank 0.
    pub fn new() -> (m: Huc3)
        ensures
            m@ == huc3_power_on(),
            m@.wf(),
    {
        let m = Huc3 {
            io: Huc3Io { command_arg: 0x80, response: 0x80, semaphore: 0x81, ir: 0x80 },
            rtc_memory: [0u8; 256],
            rtc_addr: 0,
            rom_bank: 1,
            ram_bank: 0,
        };
        assert(m.rtc_memory@ =~= Seq::new(256, |i: int| 0u8));
        m
    }

    /// The I/O registers themselves, for the hardware that maps them into the
    /// RAM window; what is stored in them is what the controller sees.
    pub fn io_mut(&mut self) -> (io: &mut Huc3Io)
        ensures
            *io == old(self)@.io_registers(),
            final(self)@ == old(self)@.with_io_registers(*final(io)),
    {
        proof {
            use_type_invariant(&*self);
        }
        pass_through(&mut self.io)
    }

    /// The value of an I/O register.
    pub fn io_register(&self, register: Huc3Register) -> (v: u8)
        ensures
            v == self@.io_register(register),
            self@.wf(),
    {
        proof {
            use_type_invariant(self);
        }
        match register {
            Huc3Register::CommandArg => self.io.command_arg,
            Huc3Register::Response => self.io.response,
            Huc3Register::Semaphore => self.io.semaphore,
            Huc3Register::Ir => self.io.ir,
        }
    }

    /// The Game Boy (or the hardware on its behalf) stores `value` in an I/O
    /// register.
    pub fn set_io_register(&mut self, register: Huc3Register, value: u8)
        ensures
            final(self)@ == old(self)@.with_io_register(register, value),
    {
        proof {
            use_type_invariant(&*self);
        }
        match register {
            Huc3Register::CommandArg => self.io.command_arg = value,
            Huc3Register::Response => self.io.response = value,
            Huc3Register::Semaphore => self.io.semaphore = value,
            Huc3Register::Ir => self.io.ir = value,
        }
    }

    /// The clock memory cell at `index`.
    pub fn rtc_memory_at(&self, index: u8) -> (v: u8)
        ensures
            v == self@.rtc_memory[index as int],
            self@.wf(),
    {
        proof {
            use_type_invariant(self);
        }
        self.rtc_memory[index as usize]
    }

    /// The clock memory address that the next command uses.
    pub fn rtc_addr(&self) -> (a: u8)
        ensures
            a == self@.rtc_addr,
            self@.wf(),
    {
        proof {
            use_type_invariant(self);
        }
        self.rtc_addr
    }

    /// The ROM bank that the switchable ROM window shows.
    pub fn rom_bank(&self) -> (b: u8)
        ensures
            b == self@.rom_bank,
            self@.wf(),
    {
        proof {
            use_type_invariant(self);
        }
        self.rom_bank
    }

    /// The selected RAM bank.
    pub fn ram_bank(&self) -> (b: u8)
        ensures
            b == self@.ram_bank,
            self@.wf(),
    {
        proof {
            use_type_invariant(self);
        }
        self.ram_bank
    }

    /// Serves the I/O registers: runs the command when the Game Boy has
    /// cleared the low semaphore bit.
    pub fn process_io(&mut self)
        ensures
            final(self)@ == old(self)@.after_process_io(),
    {
        proof {
            use_type_invariant(&*self);
        }
        if self.io.semaphore & 0x01 == 0 {
            self.execute_command();
            proof {
                use_type_invariant(&*self);
            }
            self.io.semaphore = 0x81;
        }
        proof {
            lemma_u8_masks(old(self).io.semaphore);
        }
    }

    /// Runs the command in the command register and writes the response.
    pub fn execute_command(&mut self)
        ensures
            final(self)@ == old(self)@.after_command(),
    {
        let ghost pre = self@;
        proof {
            use_type_invariant(&*self);
            lemma_huc3_command(self.io.command_arg);
        }
        let command_arg = self.io.command_arg & 0x7F;
        let command = (command_arg >> 4) & 0x07;
        let argument = command_arg & 0x0F;
        let rtc_addr = self.rtc_addr;
        proof {
            lemma_huc3_address(rtc_addr, argument);
        }
        let mut result = 0u8;
        let mut rtc_addr_new = rtc_addr;

        match command {
            0x01 => {
                proof {
                    let v = self.rtc_memory@[rtc_addr as int];
                    assert(v & 0x0F == v % 16) by (bit_vector);
                }
                result = self.rtc_memory[rtc_addr as usize] & 0x0F;
                rtc_addr_new = rtc_addr.wrapping_add(1);
            },
            0x03 => {
                self.rtc_memory[rtc_addr as usize] = argument;
                rtc_addr_new = rtc_addr.wrapping_add(1);
            },
            0x04 => {
                rtc_addr_new = (rtc_addr & 0xF0) | argument;
            },
            0x05 => {
                rtc_addr_new = (rtc_addr & 0x0F) | (argument << 4);
            },
            0x06 => {
                result = match argument {
                    0x02 => 0x01,
                    _ => 0x00,
                };
            },
            _ => {},
        }
        assert(result == pre.command_result());
        assert(rtc_addr_new == pre.rtc_addr_after_command());

        proof {
            lemma_huc3_response(command_arg & 0x70, result);
        }
        self.rtc_addr = rtc_addr_new;
        self.io.response = 0x80 | (command_arg & 0x70) | result;
        proof {
            reveal(Huc3View::after_command);
        }
        assert(self.rtc_memory@ =~= pre.after_command().rtc_memory);
    }

    /// The Game Boy wrote `data` to `addr`.
    pub fn write(&mut self, addr: u32, data: u8) -> (eff: BusEffects)
        ensures
            final(self)@ == old(self)@.after_write(addr, data),
            eff == old(self)@.write_effects(addr, data),
            final(self)@.wf(),
    {
        let ghost pre = self@;
        proof {
            use_type_invariant(&*self);
            lemma_u8_masks(data);
            lemma_register_decode(addr);
        }
        let rom_bank = self.rom_bank;
        let ram_bank = self.ram_bank;
        let mut rom_bank_new = rom_bank;
        let mut ram_bank_new = ram_bank;
        let mut eff = BusEffects::none();

        let rom_bank_mask = 0x7Fu8;
        let ram_bank_mask = 0x03u8;

        match addr & 0xE000u32 {
            0x0000u32 => {
                eff.ram_access = Some(
                    match data & 0x0F {
                        0x00u8 => RamAccess::ReadOnly,
                        0x0Au8 => RamAccess::ReadWrite,
                        0x0Bu8 => RamAccess::Huc3Io(Huc3Register::CommandArg),
                        0x0Cu8 => RamAccess::Huc3Io(Huc3Register::Response),
                        0x0Du8 => RamAccess::Huc3Io(Huc3Register::Semaphore),
                        0x0Eu8 => RamAccess::Huc3Io(Huc3Register::Ir),
                        _ => RamAccess::Disabled,
                    },
                );
            },
            0x2000u32 => {
                rom_bank_new = data & 0x7F;
            },
            0x4000u32 => {
                ram_bank_new = data & ram_bank_mask;
            },
            _ => {},
        }
        proof {
            lemma_u8_masks(rom_bank_new);
            lemma_u8_masks(ram_bank_new);
        }
        rom_bank_new &= rom_bank_mask;
        ram_bank_new &= ram_bank_mask;
        if rom_bank != rom_bank_new {
            eff.rom_bank_offset = Some(rom_bank_new as u32 * 0x4000u32);
        }
        if ram_bank != ram_bank_new {
            eff.ram_bank_offset = Some(ram_bank_new as usize * 0x2000usize);
        }
        assert(eff == pre.write_effects(addr, data));
        self.rom_bank = rom_bank_new;
        self.ram_bank = ram_bank_new;
        assert(self@ == pre.banks_after_write(addr, data));
        // The I/O registers are served after the bank registers; serving
        // them does not touch the banks.
        proof {
            lemma_after_command_keeps_banks(self@);
        }
        self.process_io();
        eff
    }

    /// No write is waiting: the I/O registers are served.
    pub fn idle(&mut self) -> (eff: BusEffects)
        ensures
            final(self)@ == old(self)@.after_process_io(),
            eff == no_effects(),
    {
        self.process_io();
        BusEffects::none()
    }
}

impl Mbc for Huc3 {
    fn on_write(&mut self, addr: u32, data: u8) -> (eff: BusEffects)
        ensures
            final(self)@ == old(self)@.after_write(addr, data),
            eff == old(self)@.write_effects(addr, data),
    {
        self.write(addr, data)
    }

    fn on_idle(&mut self) -> (eff: BusEffects)
        ensures
            final(self)@ == old(self)@.after_process_io(),
            eff == no_effects(),
    {
        self.idle()
    }
}

/// A command touches neither the banks nor the size of the clock memory.
pub proof fn lemma_after_command_keeps_banks(s: Huc3View)
    requires
        s.rtc_memory.len() == 256,
    ensures
        s.after_command().rom_bank == s.rom_bank,
        s.after_command().ram_bank == s.ram_bank,
        s.after_command().rtc_memory.len() == s.rtc_memory.len(),
{
    reveal(Huc3View::after_command);
}

/// The windows follow the banks: a driver that carries out the effects of
/// every write keeps the ROM window at the ROM bank and the RAM window at the
/// RAM bank.
pub proof fn lemma_huc3_windows_follow_banks(s: Huc3View, addr: u32, data: u8)
    requires
        s.wf(),
    ensures
        s.after_write(addr, data).wf(),
        rom_window_after(s.rom_bank * 0x4000, s.write_effects(addr, data)) == s.after_write(
            addr,
            data,
        ).rom_bank * 0x4000,
        ram_window_after(s.ram_bank * 0x2000, s.write_effects(addr, data)) == s.after_write(
            addr,
            data,
        ).ram_bank * 0x2000,
{
    lemma_after_command_keeps_banks(s.banks_after_write(addr, data));
}

/// The windows stay inside the cartridge: a RAM window offset is a bank
/// boundary within 32 KiB of RAM, a ROM window offset lies within 2 MiB.
pub proof fn lemma_huc3_offsets_in_range(s: Huc3View, addr: u32, data: u8)
    requires
        s.wf(),
    ensures
        s.write_effects(addr, data).ram_bank_offset matches Some(o) ==> o < 0x8000 && o % 0x2000
            == 0,
        s.write_effects(addr, data).rom_bank_offset matches Some(o) ==> o < 0x200000 && o
            % 0x4000 == 0,
{
}

/// A request is served once: serving the I/O registers again changes
/// nothing, and a command runs only when the low semaphore bit is clear.
pub proof fn lemma_huc3_request_served_once(s: Huc3View)
    requires
        s.wf(),
    ensures
        s.after_process_io().after_process_io() == s.after_process_io(),
        s.after_process_io().semaphore % 2 == 1,
        s.semaphore % 2 == 1 ==> s.after_process_io() == s,
{
}

/// Commands 4 and 5 set the clock memory address, nibble by nibble, and
/// leave the memory alone.
proof fn lemma_huc3_set_address(s: Huc3View, addr: u8)
    requires
        s.wf(),
    ensures
        ({
            let at = s.request((0x40 + addr % 16) as u8).request((0x50 + addr / 16) as u8);
            &&& at.wf()
            &&& at.rtc_addr == addr
            &&& at.rtc_memory == s.rtc_memory
        }),
{
    reveal(Huc3View::after_command);
}

/// Command 3 stores its argument at the clock memory address and steps it.
proof fn lemma_huc3_store(s: Huc3View, v: u8)
    requires
        s.wf(),
        v < 16,
    ensures
        s.request((0x30 + v) as u8).wf(),
        s.request((0x30 + v) as u8).rtc_memory == s.rtc_memory.update(s.rtc_addr as int, v),
        s.request((0x30 + v) as u8).rtc_addr == (s.rtc_addr + 1) % 256,
{
    reveal(Huc3View::after_command);
}

/// Command 1 answers with the low nibble of the addressed cell and steps
/// the address.
proof fn lemma_huc3_load(s: Huc3View)
    requires
        s.wf(),
    ensures
        s.request(0x10).response == 0x90 + s.rtc_memory[s.rtc_addr as int] % 16,
        s.request(0x10).rtc_addr == (s.rtc_addr + 1) % 256,
{
    reveal(Huc3View::after_command);
}

/// What a write command stores in the clock memory, a read command at the
/// same address gives back: after the address is set with commands 4 and 5,
/// command 3 stores its argument there and leaves the other cells alone,
/// and after the address is set again, command 1 answers with the stored
/// nibble.
pub proof fn lemma_huc3_rtc_memory_read_back(s: Huc3View, addr: u8, v: u8)
    requires
        s.wf(),
        v < 16,
    ensures
        ({
            let at = s.request((0x40 + addr % 16) as u8).request((0x50 + addr / 16) as u8);
            let written = at.request((0x30 + v) as u8);
            let read = written.request((0x40 + addr % 16) as u8).request(
                (0x50 + addr / 16) as u8,
            ).request(0x10);
            &&& at.rtc_addr == addr
            &&& written.rtc_memory[addr as int] == v
            &&& forall|j: int|
                0 <= j < 256 && j != addr ==> #[trigger] written.rtc_memory[j] == s.rtc_memory[j]
            &&& read.response == 0x90 + v
            &&& read.rtc_addr == (addr + 1) % 256
        }),
{
    let at = s.request((0x40 + addr % 16) as u8).request((0x50 + addr / 16) as u8);
    lemma_huc3_set_address(s, addr);
    let written = at.request((0x30 + v) as u8);
    lemma_huc3_store(at, v);
    let again = written.request((0x40 + addr % 16) as u8).request((0x50 + addr / 16) as u8);
    lemma_huc3_set_address(written, addr);
    lemma_huc3_load(again);
}

/// Writing the same value to the same address twice moves no window the
/// second time and leaves the controller as the first write left it.
pub proof fn lemma_huc3_write_twice(s: Huc3View, addr: u32, data: u8)
    requires
        s.wf(),
    ensures
        s.after_write(addr, data).after_write(addr, data) == s.after_write(addr, data),
        s.after_write(addr, data).write_effects(addr, data).rom_bank_offset is None,
        s.after_write(addr, data).write_effects(addr, data).ram_bank_offset is None,
{
    reveal(Huc3View::after_command);
}

/// Writes to 0x6000 and above reach no register: they ask nothing of the
/// hardware, and only a pending I/O request is served.
pub proof fn lemma_huc3_ignores_other_writes(s: Huc3View, addr: u32, data: u8)
    requires
        s.wf(),
        register_of(addr) >= 3,
    ensures
        s.after_write(addr, data) == s.after_process_io(),
        s.write_effects(addr, data) == no_effects(),
{
}

/// A nibble that command 3 stores is read back by command 1 at the same
/// address: from any state, after the commands 4 and 5 set the address to
/// `addr`, command 3 stores `v`, and the address is set back, command 1
/// answers `0x90 + v` and steps the address past `addr`.
pub proof fn lemma_huc3_command_read_back(s: Huc3View, addr: u8, v: u8)
    requires
        s.wf(),
        v < 16,
    ensures
        ({
            let read = s.run_command((0x40 + addr % 16) as u8).run_command(
                (0x50 + addr / 16) as u8,
            ).run_command((0x30 + v) as u8).run_command((0x40 + addr % 16) as u8).run_command(
                (0x50 + addr / 16) as u8,
            ).run_command(0x10);
            &&& read.response == 0x90 + v
            &&& read.rtc_addr == (addr + 1) % 256
            &&& read.rtc_memory[addr as int] == v
        }),
{
    reveal(Huc3View::after_command);
    let at = s.run_command((0x40 + addr % 16) as u8).run_command((0x50 + addr / 16) as u8);
    assert(at.rtc_addr == addr && at.rtc_memory == s.rtc_memory);
    let written = at.run_command((0x30 + v) as u8);
    assert(written.rtc_memory == s.rtc_memory.update(addr as int, v));
    let again = written.run_command((0x40 + addr % 16) as u8).run_command((0x50 + addr / 16) as u8);
    assert(again.rtc_addr == addr && again.rtc_memory == written.rtc_memory);
}

/// From power-on, after any writes, the ROM bank holds the seven low bits of
/// the last ROM bank write and the RAM bank the two low bits of the last RAM
/// bank write.
pub proof fn lemma_huc3_banks_after_writes(writes: Seq<(u32, u8)>)
    ensures
        huc3_power_on().after_writes(writes).wf(),
        huc3_power_on().after_writes(writes).rom_bank == huc3_rom_bank_by(writes),
        huc3_power_on().after_writes(writes).ram_bank == huc3_ram_bank_by(writes),
    decreases writes.len(),
{
    if writes.len() > 0 {
        let prefix = writes.drop_last();
        lemma_huc3_banks_after_writes(prefix);
        let before = huc3_power_on().after_writes(prefix);
        lemma_after_command_keeps_banks(before.banks_after_write(writes.last().0, writes.last().1));
        lemma_huc3_windows_follow_banks(before, writes.last().0, writes.last().1);
    } else {
        assert(huc3_power_on().rtc_memory.len() == 256);
    }
}

/// From power-on, over any writes, the windows are moved only to new banks:
/// every ROM offset asked for is that of a bank below 128 and every RAM
/// offset that of a bank below 4; no offset repeats the one before it, the
/// first ROM offset is not that of bank 1 and the first RAM offset not that
/// of bank 0, and the last offsets are those of the selected banks (bank 1
/// and bank 0 while none was asked for).
pub proof fn lemma_huc3_offsets_after_writes(writes: Seq<(u32, u8)>)
    ensures
        forall|k: int|
            0 <= k < huc3_power_on().rom_offsets(writes).len() ==> {
                let offset = #[trigger] huc3_power_on().rom_offsets(writes)[k];
                &&& offset % 0x4000 == 0
                &&& offset / 0x4000 <= 0x7F
            },
        forall|k: int|
            0 <= k < huc3_power_on().ram_offsets(writes).len() ==> {
                let offset = #[trigger] huc3_power_on().ram_offsets(writes)[k];
                &&& offset % 0x2000 == 0
                &&& offset / 0x2000 <= 3
            },
        forall|k: int|
            0 < k < huc3_power_on().rom_offsets(writes).len() ==> #[trigger] huc3_power_on().rom_offsets(
                writes,
            )[k] != huc3_power_on().rom_offsets(writes)[k - 1],
        forall|k: int|
            0 < k < huc3_power_on().ram_offsets(writes).len() ==> #[trigger] huc3_power_on().ram_offsets(
                writes,
            )[k] != huc3_power_on().ram_offsets(writes)[k - 1],
        huc3_power_on().rom_offsets(writes).len() > 0 ==> huc3_power_on().rom_offsets(writes)[0]
            != 0x4000,
        huc3_power_on().ram_offsets(writes).len() > 0 ==> huc3_power_on().ram_offsets(writes)[0]
            != 0,
        huc3_power_on().rom_offsets(writes).len() > 0 ==> huc3_power_on().rom_offsets(
            writes,
        ).last() == huc3_power_on().after_writes(writes).rom_bank * 0x4000,
        huc3_power_on().ram_offsets(writes).len() > 0 ==> huc3_power_on().ram_offsets(
            writes,
        ).last() == huc3_power_on().after_writes(writes).ram_bank * 0x2000,
        huc3_power_on().rom_offsets(writes).len() == 0 ==> huc3_power_on().after_writes(
            writes,
        ).rom_bank == 1,
        huc3_power_on().ram_offsets(writes).len() == 0 ==> huc3_power_on().after_writes(
            writes,
        ).ram_bank == 0,
    decreases writes.len(),
{
    if writes.len() > 0 {
        let prefix = writes.drop_last();
        lemma_huc3_offsets_after_writes(prefix);
        lemma_huc3_banks_after_writes(prefix);
        let before = huc3_power_on().after_writes(prefix);
        lemma_huc3_windows_follow_banks(before, writes.last().0, writes.last().1);
        lemma_huc3_offsets_in_range(before, writes.last().0, writes.last().1);
    }
}

/// What each command does, by the fields of the command byte: bits 4 to 6
/// are the command and bits 0 to 3 its argument (bit 7 is ignored). The
/// response is always 0x80 plus the command times 16 plus a result nibble:
/// - 1 answers the low nibble of the addressed clock memory cell and steps
///   the address;
/// - 3 stores the argument in the addressed cell, answers 0 and steps the
///   address;
/// - 4 and 5 set the low and the high nibble of the address and answer 0;
/// - 6 answers 1 for the argument 2 and 0 for every other argument;
/// - 0, 2 and 7 answer 0.
/// Only the response, the address and the clock memory change.
pub proof fn lemma_huc3_command_table(s: Huc3View, c: u8)
    requires
        s.wf(),
    ensures
        ({
            let cmd = (c as int % 128) / 16;
            let arg = c as int % 16;
            let a = s.rtc_addr as int;
            let t = s.run_command(c);
            &&& t.command_arg == c
            &&& t.semaphore == s.semaphore
            &&& t.ir == s.ir
            &&& t.rom_bank == s.rom_bank
            &&& t.ram_bank == s.ram_bank
            &&& t.wf()
            &&& cmd == 1 ==> {
                &&& t.response == 0x90 + s.rtc_memory[a] % 16
                &&& t.rtc_addr == (a + 1) % 256
                &&& t.rtc_memory == s.rtc_memory
            }
            &&& cmd == 3 ==> {
                &&& t.response == 0xB0
                &&& t.rtc_addr == (a + 1) % 256
                &&& t.rtc_memory == s.rtc_memory.update(a, arg as u8)
            }
            &&& cmd == 4 ==> {
                &&& t.response == 0xC0
                &&& t.rtc_addr == (a / 16) * 16 + arg
                &&& t.rtc_memory == s.rtc_memory
            }
            &&& cmd == 5 ==> {
                &&& t.response == 0xD0
                &&& t.rtc_addr == a % 16 + 16 * arg
                &&& t.rtc_memory == s.rtc_memory
            }
            &&& cmd == 6 ==> {
                &&& t.response == if arg == 2 { 0xE1int } else { 0xE0int }
                &&& t.rtc_addr == a
                &&& t.rtc_memory == s.rtc_memory
            }
            &&& (cmd == 0 || cmd == 2 || cmd == 7) ==> {
                &&& t.response == 0x80 + 16 * cmd
                &&& t.rtc_addr == a
                &&& t.rtc_memory == s.rtc_memory
            }
        }),
{
    reveal(Huc3View::after_command);
}

/// Serving the I/O registers runs the command in the command register
/// exactly when the low semaphore bit is clear, and then sets the semaphore
/// to 0x81; otherwise nothing changes.
pub proof fn lemma_huc3_process_io_runs_command(s: Huc3View)
    requires
        s.wf(),
    ensures
        s.semaphore % 2 == 0 ==> s.after_process_io() == (Huc3View {
            semaphore: 0x81,
            ..s.run_command(s.command_arg)
        }),
        s.semaphore % 2 == 1 ==> s.after_process_io() == s,
{
    reveal(Huc3View::after_command);
    assert(Huc3View { command_arg: s.command_arg, ..s } == s);
}

/// A write to 0x0000-0x1FFF switches the RAM window by the low nibble of its
/// data: 0x0 read-only RAM, 0xA RAM, 0xB to 0xE the command, response,
/// semaphore and IR registers, any other value closes it. It moves no
/// window.
pub proof fn lemma_huc3_ram_enable_write(s: Huc3View, addr: u32, data: u8)
    requires
        s.wf(),
        addr as int % 0x10000 < 0x2000,
    ensures
        s.write_effects(addr, data).ram_access == Some(
            if data % 16 == 0 {
                RamAccess::ReadOnly
            } else if data % 16 == 0xA {
                RamAccess::ReadWrite
            } else if data % 16 == 0xB {
                RamAccess::Huc3Io(Huc3Register::CommandArg)
            } else if data % 16 == 0xC {
                RamAccess::Huc3Io(Huc3Register::Response)
            } else if data % 16 == 0xD {
                RamAccess::Huc3Io(Huc3Register::Semaphore)
            } else if data % 16 == 0xE {
                RamAccess::Huc3Io(Huc3Register::Ir)
            } else {
                RamAccess::Disabled
            },
        ),
        s.write_effects(addr, data).ram_bank_offset is None,
        s.write_effects(addr, data).rom_bank_offset is None,
        s.after_write(addr, data).rom_bank == s.rom_bank,
        s.after_write(addr, data).ram_bank == s.ram_bank,
{
    lemma_huc3_windows_follow_banks(s, addr, data);
}

} // verus!
