# sound_pipewire

Volume control for the sound devices of a PipeWire server.

- `src/` is the library, verified with Verus. It takes and gives plain values and makes the
  decisions listed below. It does no input or output and no floating-point arithmetic: a volume is
  carried as the bits of a single-precision number, and its percentage is handed in.
- `tests/` runs the library.
- `app/` is the ordinary Rust around it: the thread that talks to the server, the conversion
  between linear volumes and percentages, and the asynchronous device.

| module | what it decides |
| --- | --- |
| `globals` | which announced objects matter |
| `props` | what a node reports of its volumes and mute state, and how they are set |
| `defaults` | which devices are the default ones |
| `registry` | what is known of the devices, and which requests reach a node |
| `device` | which device is meant, and how its volume and mute state change |
| `client` | what becomes of a request |
| `connection` | how the connection is set up and set up again, and what counts as losing it |
| `error` | what the user is told when something fails |
| `text` | decimal numbers as text |
| `laws` | what holds of all of it together |
