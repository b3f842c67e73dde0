# daq

Verified core of a bare-metal mixed-signal data-acquisition firmware
(STM32F401, Embassy). The firmware's decisions are in `src/` and proved with
Verus, including one step of each task loop (`AdcPipeline::on_samples`,
`transport_tick`, `telemetry_tick`, `FaultEngine::handle_byte`); `app/`
holds the Embassy tasks that run those steps, and the register-level code
that moves bytes and waits. `src/` allocates nothing: buffers, packets and
wire images are fixed-size arrays.

Layout of `src/`:

- `shared/`: wire types. Sample packets and their 518-byte wire form,
  ADC calibration, acquisition configuration, protocol codes, self-test
  status lines, fault configuration and commands, telemetry frames and bus,
  the DMA buffer.
- `fault/`: bit manipulation, the 16-bit LFSR (with a proof of its maximal
  period in `lfsr_period.rs`) and the injection decision,
  the fault-command engine, the SPI, I2C, 1-Wire, UART and CAN injectors,
  and the 8N1 framing of the bit-banged control line.
- `analog.rs`: averaging of interleaved ADC readings and the acquisition
  step that turns them into packets.
- `telemetry.rs`: voltage, current, temperature and clock sensors, and the
  telemetry tick.
- `transport.rs`: packet numbering and hand-out, and the streaming tick.
- `health.rs`: self-test verdicts.

Injectors never busy-wait themselves: a call that needs a delay reports it
in CPU cycles (`delay_cycles()`), and the caller spends it.
