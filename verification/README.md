# rtx

Firmware logic of the UMI RTX robot arm driver board, verified with Verus.

- `src/` is the verified library: the line framing of the serial protocol
  (`line_reader`), the protocol's messages and status report (`nc`), what each
  received packet calls for and the replies (`serial`), the g-code motion
  decisions (`gcode`), the integer arithmetic of the motor drives (`motor`) and
  the joint names (`motion`).
- `app/` holds what stays outside it: floating-point joint geometry, PID control
  and filtering, coordinate formatting, the g-code parser's visitor, the PWM
  motor drives and the USB serial task.
- `tests/` exercises the library.

The line buffer of `LineReader<N>` is a `Vec<u8>` with the capacity `N` held as
the type's invariant. A fixed-capacity collection of an outside crate would need
its contents named by a specification function generic over `N`, which this
crate's rules for trusted items do not admit.
