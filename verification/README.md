# modbus_stack

A Modbus protocol stack for embedded use, verified with Verus: function and
exception codes, typed registers, Modbus/RTU and Modbus/TCP frame decoders,
and encoders and decoders for request and response PDUs.

- `src/` is the verified library. Each public function states its result in
  its `ensures`; the laws of the library (codes and registers that convert
  back and forth, decoders that take in whole frames, encoded frames that a
  decoder accepts) are public proof functions beside the code they speak of.
- `tests/` runs the library on concrete frames and values.
- `app/` holds what the library does not: floating point register values and
  telling Modbus/TCP frames apart by their address.
