# kruspix core, verified

The logic of a small AArch64 kernel for the Raspberry Pi 3, written in Verus, with contracts
(`requires` / `ensures`) that Verus proves.

## Layout

- `src/mmu/`: the kernel's translation tables as a tree model (`PageTable`), page and block
  descriptors and their attributes, the early identity map and `map_page`.
- `src/arch/arm64/`: the initial context of a new task and the boot parameter parsing.
- `src/drivers/`: the driver core (registries, node matching, bring-up rounds) and the
  BCM2835/2836 drivers: interrupt controllers, DMA engine, mailbox and firmware properties,
  framebuffer, drawing primitives and text console, mini UART, RNG, timers, watchdog, and the USB
  host (protocol core, enumeration steps, controller decisions, boot keyboard).
  Register access is modelled as the values a function reads and the writes it returns.
- `src/text.rs`: decimal and hexadecimal output.
- `src/once_slot.rs`, `src/ring_array.rs`, `src/hash.rs`: small containers and hashing.
- `tests/`: tests of the library on concrete values.
- `app/`: the boot flow around the library: volatile register access, waiting loops, the
  order of the USB enumeration steps with the waits between them, and the few instructions
  that only assembly can issue.

Public proof functions named `lemma_*` state properties that hold across calls (for example
that the identity blocks written before the MMU is on are those the kernel tables use, or that
an escape sequence draws nothing).
