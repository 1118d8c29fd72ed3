# swhkd input layer, verified

The input side of a hotkey daemon: it grabs keyboards and pointers and
forwards their events, either through evdev or through libinput, to virtual
uinput devices. The decisions and translations are a Verus library under
`src/`; the I/O (device nodes, ioctls, libinput, uinput, tokio) is in `app/`.

- `src/events.rs`: the libinput events as plain values.
- `src/translate.rs`: libinput event → evdev events.
- `src/queue.rs`: the pending-event queues of the libinput backend.
- `src/uinput_layer.rs`: what the libinput daemon writes to its uinput device.
- `src/devices.rs`, `src/table.rs`: which devices the backends take, and the
  table of devices in use.
- `src/interface.rs`, `src/text.rs`, `src/names.rs`: the device list, device
  names and the answers to libinput's requests to open device nodes.
- `src/codes.rs`: event codes and open flags read from `evdev` and `libc`.
