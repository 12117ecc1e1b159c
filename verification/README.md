# chat_backend_rs

A multi-provider LLM chat backend. The library under `src/` holds its logic,
each function with a contract that Verus proves:

- `text`: cleaning model output (white space, code fences) and truncation to
  a byte budget.
- `agent_input`, `agent_response`, `turn`, `usage`, `ui`: agent settings and
  their merge, streamed chunks, turn records and their token usage, the flat
  chunks sent to the user interface.
- `gemini`: what each event of a Gemini Interactions stream gives, and the
  tool calls whose arguments are still arriving.
- `chat`, `store`, `keyed`, `service`: chats and their messages, the
  in-memory chat store, the agent table, and the steps of a chat completion.
- `providers`: the providers offered and the choice of a provider's client.

`app/` is the server around it: HTTP routes, storage on disk, the model
clients, the environment and logging.
