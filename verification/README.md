# obot

Verified logic for the OBOT STM32G474 motor controller, with the
`obot-bench-debug` host tool around it.

- `src/` is the library, checked by Verus: the host and debugger packet
  formats, the USB control and text API, the loop scheduler and benchmark
  statistics, the output safety latch and host watchdog, the hall encoder,
  and the register programmes that bring up the clocks, ADCs, PWM timer,
  status LED, DRV8323S link and USB device. Peripheral code is written as
  programmes of register steps and as decisions on register values, so that
  what the firmware writes is stated and proved.
- `tests/` runs the library on concrete values.
- `app/` is the hosted tool (`main.rs`) and the parts of the firmware that
  only touch hardware or floating point: the volatile register runner, the
  USB interrupt glue, the debugger mailboxes, reset, and the current,
  FOC and outer control loops in physical units.
