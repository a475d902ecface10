//! Board support logic for the NUCLEO-H743ZI examples: the trace (ITM/SWO)
//! register setup, the lines of the ITM counter demo, the LED and SPI
//! patterns of the blink and raw-SPI demos, and the level filter of the
//! loggers.

pub mod counter_log;
pub mod leds;
pub mod logger;
pub mod trace;
