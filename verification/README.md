# ad9361-embedded

A driver library for the Analog Devices AD9361 RF transceiver whose register
computations are verified with Verus.

The library computes what the chip is programmed with: the clock tree from the
reference clock to the ADC, DAC and sample clocks, the BB and RF PLL words, the
baseband filter tuning, the RX ADC setup, the gain control, RSSI and AuxADC
settings, the FIR and gain table loading sequences, the ENSM transitions, the
SPI frames, and the decisions taken during calibrations and interface tuning.
Each public function states in its contract what it returns.

## Layout

- `src/limits.rs`, `src/types.rs`: chip limits and shared enums.
- `src/regs.rs`, `src/regs/`: the register map (addresses and field encoders).
- `src/bits.rs`: bit field helpers used by the register computations.
- `src/clocks.rs`: clock tree, clock path search, BB and RF PLL configuration.
- `src/config.rs`: driver configuration and its validation.
- `src/ctrl_output.rs`: decoding of the control output pins.
- `src/spi.rs`: SPI frame layout.
- `src/driver.rs`: driver state, errors, ENSM handling, interface delay tuning.
- `src/calib.rs`: register values and write sequences of bring-up, calibration
  and runtime operations.
- `tests/`: tests on concrete values.
- `app/`: a blocking driver over `embedded-hal` that performs the SPI transfers,
  delays and pin accesses and writes what the library computes.

The chip's synthesizer, gain and mixer tables are data that the caller passes
to the bring-up (`InitTables` in `app/`).
