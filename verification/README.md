# EW Backup Gen

A service that copies a directory into dated backups, once on start-up, at intervals or by a cron
expression, and keeps a limited number of them.

- `src/` is the library. It decides when a backup is due, what it is called, which old backups go
  and what the service does next, and Verus proves that it decides as its contracts say. What is
  trusted of `chrono` stands in `src/clock.rs`.
- `app/` is the program. It reads the configuration and the clock of the file system, copies and
  removes directories, waits, and tells the user what happens.
- `tests/` runs the library on examples.
