# jarvis

A small rule-based text assistant, written in Verus.

`src/` is the verified library:

- `text` — white space, trimming, searching, words, decimal numbers.
- `order` — the order of texts and a sort by it.
- `types` — requests, reply kinds, actions and decisions.
- `brain` — the rule-based brain (`decide` states every rule).
- `assistant` — the listen/think/execute/inform cycle as a state machine.
- `executor`, `audio` — the decisions and reports of the local executor and
  the microphone recorder.
- `console`, `platform` — reply lines, startup warnings, handle checks.
- `interfaces` — the four roles of the pipeline.

`app/` is the console program: standard I/O, the Ctrl+C flag, the clock,
the file system, the microphone (cpal), WAV files (hound) and the system
player. It drives the state machine and hands the results back.
