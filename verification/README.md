# rptadv-gpio-adapter

The radio GPIO boundary of a repeater controller, with its decisions verified by
[Verus](https://github.com/verus-lang/verus). It signals PTT and ordinary GPIO
outputs, and samples COR, CTCSS and GPIO inputs, over the HID interface of one
explicitly selected CM108/CM119 device. It also reads and programs that device's
user tuning EEPROM, and drives Linux parallel ports through ppdev or raw I/O.

## Layout

- `src/` is the verified library. It performs no I/O: an operation returns the
  next thing to do (send a report, write a byte, make a USB call), and takes the
  outcome back.
- `app/` is the C ABI around it: libusb, ppdev and raw I/O calls, the atomics
  that lock-free publishers share with the service owner, and the descriptor of
  entry points.
- `tests/` runs the library against scripted devices, ports and buses.

| module | what it holds |
| --- | --- |
| `abi`, `parallel_abi` | values exchanged with callers |
| `topology`, `identity`, `config`, `parallel_config` | what a caller may select |
| `profile` | CM119 wiring maps and packed words |
| `pulse`, `publication` | published outputs and timed pulses |
| `device`, `eeprom` | one CM119 device and its tuning EEPROM |
| `parallel`, `rtx` | one parallel port and the RTX serial protocol |
| `usb`, `discovery`, `transport` | one pass over the USB bus, and how transfers travel |
| `*_laws` | what holds across operations |

## Rules of use

One service owner performs all I/O of a device; publications and snapshots may
come from anywhere. Times are nanoseconds on a monotonic clock. A device stays
well formed, that is, confined to the pins that its configuration enables, as
long as every step is completed with the outcome of the operation it named.
