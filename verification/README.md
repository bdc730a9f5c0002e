# rawaccel_userspace

The userspace side of the Raw Accel mouse acceleration driver: it checks the
settings a user edits, turns them into the structures the driver reads, lays
out the buffer that carries them, lists the connected mice, and decides which
curve and which pipeline steps each profile needs.

## Layout

- `src/` is the library, verified with Verus.
  - `binary64`: doubles held by their bit patterns, with their order.
  - `text`: UTF-16 coding, white space, and the string operations on names
    and device ids.
  - `models`: the driver's structures and constants.
  - `config`: the user's settings, their validation, and their conversion
    to the driver's structures.
  - `curves`: curve selection, pipeline flags, lookup-table search, and the
    zones of the tiered and jump curves.
  - `devices`: display names and ids of connected mice, and the device list.
  - `driver`: the layout of the buffer sent to the driver.
- `tests/` runs the library on concrete values.
- `app/` is the program around the library: the window and its commands,
  reading and writing settings files, the Windows calls that talk to the
  driver and list devices, and the curves' floating-point arithmetic.
