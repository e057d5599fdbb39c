# lovr_rs

A Rust plugin for the LÖVR game framework, loaded by LÖVR as a Lua module,
that runs a game written against a Rust callback trait.

- `src/` is the verified library:
  - `sys`: the values of LÖVR's C enumerations (keys, event types, displays,
    file actions, permissions, drawing modes), numbered as the C compiler
    numbers them.
  - `lovr::event`: keys, displays, file actions and permissions with their
    codes, and the decoding of a raw queued event into the event handed to
    the callbacks.
  - `lovr::graphics`: the drawing modes of a render pass with their codes,
    and the layout of point lists.
  - `lovr::error`: LÖVR errors, the status check of LÖVR calls, and the
    report shown to Lua for an error.
  - `lovr::callbacks`: one frame of the run loop as a state machine, with
    the laws it keeps.
- `app/` holds the Lua entry point, the declarations of LÖVR's C functions,
  the callback trait with the loop that performs the frame's actions, the
  render pass wrapper and the demo game.
