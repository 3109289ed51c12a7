# kapp

A window and input library for macOS, Windows, the web, X11 and SDL.

- `src/` is the verified library, checked with Verus: how each platform's
  messages become events, which modifier keys changed, which keys are held,
  when draws are sent, the order in which events reach the program's
  callback, and the attribute lists for OpenGL contexts. Each function
  states its result in its contract, and the laws that relate several
  calls are proof functions named `law_*`.
- `app/` is ordinary Rust around it: the platform calls, the event loops
  that run the library's decisions, and the event type with floating-point
  coordinates.
- `tests/` runs the library on concrete values.
