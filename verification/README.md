# oddonkey (verified core)

The library part of a small Ollama wrapper, written in Verus.

* `src/session` – the conversation state of a model handle (pre-prompts,
  history, per-prompt reports) and its builder.
* `src/domain` – errors, chat messages, reports and the token estimate.
* `src/adapters/ollama` – Ollama endpoints and answer checks, the line
  framing and token-stream decoder of streamed replies, and the state machines
  that install Ollama, start its server and make a model available.
* `src/adapters/docker` – the settings and command lines of the Ollama
  container, and the state machine that starts it.
* `src/text` – Unicode whitespace, trimming, word counting, decimal rendering.

Every step that touches the network or the machine is an *action* the library
hands out; the caller performs it and hands the outcome back as an *event*.
`app/` is such a caller: the async model handle, the `LlmProvider` port with
its Ollama adapter, the runners of the state machines, generation options and
the printed forms of errors and reports.
