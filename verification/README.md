# ads8681

A driver for the Texas Instruments ADS8681 ADC, split in two:

- `src/` is the library, verified with Verus. It holds the register layouts
  (`config`, `fields`, `bits`), the register addresses (`registers`), the
  32-bit command frames (`command`), the decoding of output data words
  (`output`), and the commands behind every register access of the driver with
  the decoding of the device's reply (`driver`).
- `app/` is the bus glue over `embedded-hal` and `embedded-hal-async`: the SPI
  transfers, the RVS pin, and the `Ads8681` driver type that runs the commands
  the library plans.

`tests/` exercises the library on concrete frames and register values.
