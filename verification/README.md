# agent

A small framework for LLM agents, verified with Verus: messages and requests, tool
definitions and the registry that finds the tool a model calls, the decisions of a
streaming chat provider, agents that wrap a provider, and multi-step workflows.

## Layout

- `src/` — the verified library.
  - `message.rs`, `request.rs`, `output.rs`: messages, requests and their builder,
    streamed pieces and outputs, each with a view that contracts speak of.
  - `json.rs`: JSON as plain data, with a mathematical view.
  - `provider/run.rs`: one run of a streaming chat provider as a state machine
    (chunk in; pieces to stream, next step out), with its laws: the answer is the
    streamed text, and the tools' answers join the conversation.
  - `provider/mod.rs`: the client and the OpenAI provider's configuration.
  - `tool/`: tool outputs, the registry (unique names), and the built-in tools'
    definitions and decisions (`ask_user`, `shell`, `get_weather`).
  - `agent/`: the information-collecting, planning and classifying agents.
  - `step.rs`: layers and the workflow builder, with the law of their order.
  - `text.rs`, `util/`: trimming, decimal numbers, UTF-8 decoding; terminal rendering.
- `tests/`: tests of the library on concrete values.
- `app/`: the program around it: the asynchronous provider loop over the OpenAI
  stream, tool execution (terminal, processes), JSON text, the terminal view, and
  the `source_code!` and `match_agent!` macros.
