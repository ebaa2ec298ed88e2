# pl011_uart

Driver logic for the Arm PrimeCell UART (PL011), verified with Verus.

`src/` is the verified library:

- `baud.rs`: the integer and fractional baud rate divisors, with the
  limits the PL011 accepts and the rounding to the nearest 64th;
- `config.rs`: line configuration and the Line Control Register value;
- `registers.rs`: register bits, the registers the driver writes, and the
  register state after a sequence of writes;
- `driver.rs`: the writes that enable and disable the UART and send a byte,
  the decoding of the Data and Flag Registers;
- `ident.rs`: the peripheral identification and its validity;
- `serial.rs`: the steps of the non-blocking and blocking serial operations;
- `error.rs`: error types.

`app/` holds the register block with its volatile accesses, the `Uart` type
and the implementations of the `embedded-hal-nb`, `embedded-io` and
`core::fmt` traits, all of which read registers, hand the values to the
library and write what it returns.
