# jvmti

The value types, error codes, flag sets and decisions of a JVM TI agent,
verified with Verus.

- `src/` is the verified library: interface versions (`version`), error kinds
  and codes with their messages (`errors`, `text`), capability and other flag
  sets (`caps`, `thread`, `events`, `heap`), thread priorities, event and heap
  codes, the outcome of an agent's start (`agent`), non-zero integers
  (`nonzero`), and the laws of flag sets (`flags`).
- `app/` holds the environment handle and everything that calls the virtual
  machine through raw JVM TI function pointers; it hands the library plain
  codes and values and takes its decisions back.
- `tests/` exercises the library on concrete values.
