# netchat

A chat server that forwards questions to several language models (OpenAI,
Qwen, Qwen-VL, GLM, Gemini), relays chat messages between websocket clients,
accepts file uploads and keeps a short history per conversation.

- `src/` is the verified library: the conversation store and its bounded
  histories, the choice of model for a request, the requests sent to each
  model and the reading of their replies, the JSON bodies the server writes,
  upload paths and MIME recognition. Its contracts and laws are checked by
  Verus.
- `app/` is the server around it: HTTP routes, websocket plumbing, the calls to
  the model services, environment configuration and logging.
- `tests/` runs the library on concrete values.
