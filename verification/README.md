# stick_s3

Verified board logic for the M5Stack StickS3 / StickS3 Plus (ESP32-S3).

- `src/` — the library, verified with Verus. Every peripheral is driven by
  functions that decide the bus transfers, pin levels and pauses, and by
  step functions for the flows that wait on the hardware (BMI270 bring-up and
  sampling, M5PM1 probing, register tables of the ES8311 and NS4168,
  provisioning of the NVS store, Wi-Fi auto-connect, deep-sleep entry).
  Each module states its behaviour in its contracts; the `lemma_*` proof
  functions state the properties that hold across calls.
- `tests/` — tests of the library on concrete values and simulated devices.
- `app/` — the hardware layer and the demo program: ESP-IDF drivers (SPI,
  I2C, I2S, ADC, GPIO, NVS, Wi-Fi) performing the library's requests, the
  embedded-graphics drawing target, and the async dashboard.

The BMI270 configuration blob (`app/bmi270_config.rs`, 8192 bytes from
Bosch) is not part of this repository and must be supplied to build the
firmware.
