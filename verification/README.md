# procsim

A terminal simulator of processes. Each process takes a random number of
milliseconds and is driven by a worker; a controller starts, pauses, stops and
displays them, and closes the simulation when its time is up.

    procsim [processes] [seconds]

Five processes and ten seconds are the defaults. The keys are `s` to start, `p`
to pause and resume, the arrows to choose a process, and `q` to quit.

- `src/` is the verified library: the controller's states and events
  (`simulation`), one process (`process`), the table of processes (`roster`),
  the worker (`worker`), the clock (`clock`), the command line (`args`), the
  random choices (`random`), what the screen says and where (`screen`, `text`,
  `layout`, `drawing`), and what holds of all of it (`laws`).
- `app/` is the program: threads, the clock, the keyboard and the drawing.
- `tests/` runs the library on given values.
