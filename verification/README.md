# connect

The verified core of a server that receives logs from driving devices.

- `src/upload_tracker.rs`: uploads in progress, kept in a `DashMap`; byte counts,
  a throttled transfer rate, and the newest-first snapshot shown to operators.
- `src/upload_handling.rs`: who may upload, the storage keys of files, what is
  charged to a device, what the device is answered, and the order of the steps
  of an upload request.
- `src/devices.rs`: device records and the record of a new registration.
- `src/stats.rs`: daily and running chart series, activity windows, disk space.
- `src/media.rs`: which encoders a remux tries, the ffmpeg arguments of each try,
  the failure report, and the once-per-process hardware-encoder lookup.
- `src/text.rs`, `src/clock.rs`: string helpers and the wall clock.

`app/` runs the processes, reads the disks, streams request bodies and converts
the library's records to their serialised forms.
