# mini_visor drivers

Verified register-level logic of two device drivers of a small hypervisor:
the DesignWare APB UART and the DesignWare MMC host controller.

- `src/mmio.rs`: the requests a driver makes of the hardware (register read
  or write, spin hint, barrier, cache flush, buffer word moves) and the step
  type of every driver state machine.
- `src/drivers/dw_apb_uart.rs`: construction, interrupt enabling, and the
  byte send / receive machines.
- `src/drivers/dw_mmc/`: construction and bring-up (`mod.rs`), the command
  exchange and acknowledged command machines (`command.rs`), and the block
  transfer machine with its invariant and laws (`transfer.rs`).
- `app/`: runs the machines against memory-mapped registers; the platform's
  cache maintenance, barriers and console come in through a trait.
