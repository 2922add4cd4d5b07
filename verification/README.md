# gb_mbc

Memory bank controllers of Game Boy cartridges (MBC1, MBC3, MBC5, HuC3),
verified with Verus.

- `src/` is the verified library. Each controller is a state machine: it is
  told of every write the Game Boy makes to the cartridge's ROM area (and of
  idle bus time), updates its registers, and answers with a `BusEffects`
  value that says what the cartridge hardware must do (switch the RAM
  window, move the ROM or RAM window, drive the real-time clock). The
  contracts state the new registers and the effects exactly; the laws at the
  end of each controller's file state what holds across writes (the windows
  follow the banks, per write and over whole write sequences from power-on;
  offsets stay within the cartridge, repeated writes move
  nothing, HuC3 clock memory reads back what was written).
- `app/` holds the RP2350 driver: it pulls the writes from a PIO FIFO,
  hands them to a controller and carries out the effects through volatile
  pointer writes and the RAM / clock control interfaces.
