# basis

Communication library for Nucleo-H755ZI boards that read ECU data from a CAN
bus and pass it on over UDP, with its core verified by Verus.

- `src/` — the verified library: the UDP message wire format and its decoder
  (`messages`), the SCS Delta and MaxxECU frame handling and test-frame
  generators (`scs`, `maxx`, `maxx_lengths`, `constants`, `ecu`,
  `engine_data`), the decimal/fixed-point JSON rendering into a bounded
  `heapless::String` (`text`), board and CAN configuration (`config`), sensor
  bookkeeping (`sensors`), and the decision logic of the CAN reader, the UDP
  broadcaster, the test-frame sender and the USB/UDP bridge (`can_reader`,
  `send_cycle`, `bridge`).
- `tests/` — executable tests of the library.
- `app/` — the firmware plumbing around it (embassy tasks, clocks, Ethernet,
  USB, ADC, floating-point SCS scaling), not verified.
