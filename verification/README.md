# ws63_rf

Verified logic of the OS-adapter layer that runs the WS63 Wi-Fi vendor
libraries: what the adapter decides, stated as contracts and proved with
Verus.

- `src/` — the verified library: image header checks, interrupt
  and PMP plans, the cooperative scheduler and its semaphores, software
  timers, message queues and event groups, condition waits, the FRW message
  pool, C-string and securec routines, the bounded `snprintf` subset, the
  supplicant frame parsers, queues, port registration and key requests, scan
  results and network selection, the L2 frame bridge, and the diagnostic
  counters and text lines. Laws that span several calls are stated as
  public lemmas.
- `tests/` — tests of the library on concrete values.
- `app/` — the C entry points the vendor objects link against: pointer
  handling, the global instances behind critical sections, context switching
  and the smoltcp network device. Every decision it makes is a library call.
