# antigravity

The harness that drives Google Antigravity (`agy`) in a chat: one run of the program per turn, with
`--output-format stream-json`, whose events are folded into the assistant message.

The library in `src/` is verified with Verus:

- `command`: the command line of a turn, permission flags and the opening prompt
- `json`, `tools`, `stream`: event values, tool names and inputs, and the fold of the events
- `turn`, `log`: a turn from the first line of output to its end, its plan card and its log
- `models`, `options`, `places`, `harness`: the model catalog, the choices, where the program and
  its files are, and whether it is ready
- `chat`, `text`: the assistant message and operations on text
- `laws`: what holds of all of these together

`app/` starts the program, reads its output and asks the file system; it hands plain values to the
library and does what the library decides.
