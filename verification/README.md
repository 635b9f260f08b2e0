# tlsr82xx

Drivers for the Telink TLSR825x/TLSR82xx Bluetooth LE microcontrollers,
written in Verus with their behaviour stated in `requires`/`ensures`
contracts and proved.

The library never touches a register itself. Each driver returns the
register work it decides on as a list of `RegOp` values (writes,
read-modify-writes, analog register writes, busy-waits, delays), or a
`FlashTransfer` for the SPI flash, and takes the values it has to read as
arguments. The contracts state exactly which operations come out for which
inputs. Long procedures that alternate hardware access and decisions (the
sleep and wake-up sequences, bus polling) are written as step functions from
state and event to next state and action.

Layout:

- `src/` – the verified library: pads and pin multiplexing (`gpio`), analog
  registers, clocks and timers, interrupts, power management and the sleep
  sequences (`pm`, `sleep`, `startup`), ADC, UART, PWM, I2C, SPI, flash
  commands, the radio, a BLE advertiser and an over-the-air update GATT
  peripheral (`ble`), and the TB-03F board description (`boards`).
- `tests/` – tests that run the compiled library.
- `app/` – the thin layer that performs the register operations on the chip,
  runs the step machines (wake-up initialisation, sleep, advertising burst,
  OTA service round) against the hardware, calls the vendor routines and
  implements the `embedded-hal` and `embedded-io` traits over the library's
  drivers.
