# HamlibPTT

An EXTFSK DLL for MMSSTV/MMTTY/MMVARI that keys the rig through Hamlib
(`rigctl` or `rigctld`) and, optionally, sends FSK on a serial port's DTR or
RTS line.

- `src/` is the verified library (Verus): the configuration and error types,
  the parameter word of `extfskOpen`, the command lines, `rigctl` argument
  lists and `rigctld` reply checks, the FSK frames, what the interface holds
  between calls, and the open/close sessions that decide each step.
- `app/` is the DLL around it: the exported entry points, reading
  `hamlibptt.toml`, processes, sockets, the serial port, the keying thread
  and the message boxes.
- `tests/` exercise the library on concrete values.
