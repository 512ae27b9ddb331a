# xdmac

Channel management and transfers for the Extensible DMA Controller (XDMAC) of
the SAMx7x microcontrollers, verified with Verus.

The library decides what is to be done to the hardware and proves what it says
about it; it never touches a register. An operation appends the register
accesses that it calls for to a queue of commands, and interrupt status words
come back as plain values.

- `src/controller.rs`: the manager, `Xdmac`: channel leases and memory-to-memory
  copies.
- `src/peripheral.rs`: SPI and USART transfers (`spi.rs`, `usart.rs`, `uart.rs`
  and `request.rs` hold what they need to know of the peripherals).
- `src/transfer.rs`, `src/status.rs`: running transfers and what they report.
- `src/registers.rs`: the commands and the words that go into the registers.
- `src/capture.rs`: sample-by-sample capture into a buffer.
- `src/descriptor.rs`: linked-list descriptors.
- `src/laws.rs`: what holds of all of it together.
- `app/`: the driver on a SAM V71, which carries the commands out.
