# relay_board_rs_485

A library for RS-485 Modbus RTU relay boards (R4D8A08 and Waveshare), with
its behaviour stated in contracts and proved by Verus, and a small command-line
program around it.

- `src/protocol`: the Modbus CRC-16, request and response frames, and the
  removal of trailing zero bytes from what the line delivered.
- `src/device`: the command set of the boards and the board operations. Over a
  transport checked by Verus, each operation's contract gives the exact frame
  it hands to the line, when it succeeds, and for a status read the reading
  of the frame that came back.
- `src/transport`: the `Transport` trait that carries frames, with its model
  of the line, and an in-memory implementation. The serial transport in
  `app/` is not checked and does not follow that model.
- `app/`: argument parsing and the serial port (`serialport`, `clap`).
- `tests/`: the test suite.
