# rustgirl

The verified core of a Game Boy emulator.

- `src/cpu.rs`: the machine state (registers, 64 KiB address space, sound unit).
- `src/register.rs`, `src/flag.rs`: the 8- and 16-bit registers and the flags in F.
- `src/lcd.rs`: the LCD control and status registers (LCDC, STAT, screen modes).
- `src/apu.rs`: the frame sequencer and the two square-wave channels, mixed into
  16-bit samples.
- `src/opcode.rs`, `src/decode.rs`: the instruction set and its decoder.
- `src/exec.rs`: the instructions the executor carries out.
- `app/`: the boot-ROM tracer and the SDL audio output.
