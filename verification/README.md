# nucleo_h743zi

Board support logic for the STM32 NUCLEO-H743ZI examples, verified with Verus.

- `src/` is the verified library:
  - `trace`: the ordered register writes that bring up the ITM and the SWO trace output.
  - `counter_log`: the lines that the ITM demo prints.
  - `leds`: the blink and raw-SPI demos.
  - `logger`: the loggers' level filter.
- `app/` is the board code around the library: peripheral setup, register access, the loggers and the example loops.
- `tests/` holds the tests of the library.
