# crash_handling

Verified building blocks for catching and reporting crashes.

- `src/` is the library, written in Verus. It holds the crash context of a
  thread (x86_64 and x86 register mapping into the minidump CPU context,
  `EXC_GUARD` code decoding, the Windows context layout and exception codes),
  the bookkeeping of attached handlers (the handler stack and the single
  handler slot), the process-wide state that the first attach sets up and
  the last detach undoes (the saved signal actions and the alternate signal
  stack on Linux, the handlers each Windows handler recorded), the crash
  contexts made up for the CRT handlers, the decisions taken when a signal or exception arrives
  (which handler is asked, what the OS is told, whether a signal is raised
  again, how the alternate signal stack is installed and restored), the
  error types, and the helpers of the minidump test harness (test ids, dump
  paths, client arguments, reading the crash reason and address out of a
  minidump, and which crash reason each provoked crash must produce).
- `app/` performs the system calls that those decisions ask for: it installs
  the signal handlers and the alternate signal stack on Linux, the exception
  filter and CRT handlers on Windows, intercepts `pthread_create`, and runs
  the minidump server of the test harness, launches the crash client and
  reads the minidump file it leads to (the minidump is parsed, and judged,
  by the library).
- The crash client program that the harness launches is not part of this
  crate: its dump request hands `minidumper` a `crash_context::CrashContext`,
  the context type of the separate `crash-context` crate, which this crate
  does not depend on. The harness expects a `crash-client` executable beside
  its own.
- `tests/` exercises the library on concrete values.
