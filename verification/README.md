# rvemu

A RISC-V emulator for the RV64GC ISA (RV64IMAFD, Zicsr, Zifencei, RV64C) with the privileged
ISA, the control and status registers, Sv39 virtual memory and the devices of the QEMU `virt`
machine (UART, CLINT, PLIC, virtio block device), written in Verus. The library states the
behaviour of every instruction, device access and trap as a specification over a mathematical
model of the machine (`CpuView`, `BusView` and the device views), and Verus proves that the
executable code meets it.

## Layout

- `src/cpu.rs`, `src/cpu/`: the hart. `decode` holds the instruction fields, `alu` the
  integer arithmetic, `access` the Sv39 translation and the loads, stores and fetches,
  `general` and `compressed` the execution of 32-bit and 16-bit instructions, `cycle` the
  device tick, the interrupt selection and the execution of one instruction.
- `src/csr/`: the CSR file of the hart (`State`) and the register objects with their fields
  (`mstatus`, `satp`, `misa`, ...).
- `src/exception.rs`, `src/interrupt.rs`: the traps.
- `src/bus.rs`, `src/dram.rs`, `src/rom.rs`, `src/devices/`: the system bus, the memories
  and the devices; `devices/virtqueue.rs` is the disk access of the virtio device.
- `src/emulator.rs`: a machine that runs step by step.
- `src/memory.rs`, `src/mmu.rs`, `src/elf.rs`: a plain memory, the address translation by
  scheme, and the ELF structures with the reading of a 64-bit ELF header.
- `app/`: the command-line front end (files, the device tree compiler, the terminal), the
  floating-point unit and a browser front end.

Floating-point operations are decoded by the library and carried out by the host
(`app/fpu.rs`): the library hands them over as `Executed::Float`.

## Running

```
rvemu-cli -k <kernel-image> [-f <filesystem-image>]
```

An image is loaded at the start of DRAM (0x8000_0000), where execution starts.
