# prompt_iq

The rules of Prompt IQ Test, a desktop application that assesses how well a
person drives LLMs, written in Verus with their contracts proved.

- `src/` is the verified library: question-bank validation, loading order,
  filtering, grouping and drawing; settings and model-profile rules;
  chat-completion requests and the evaluator prompt; reading the evaluator's
  JSON verdict; the static assessment flow (starting a session, presenting the
  next question, accounting for a submitted answer). `src/laws.rs` states the
  properties that relate several operations.
- `tests/` runs the library on concrete values.
- `app/` is the application around it: files in the data directory, the
  SQLite store, HTTP calls to the model service, and the command surface. It
  hands the library plain values and stores or sends what comes back.

Sampling parameters and scores are floating-point numbers in the application;
the library carries them as IEEE-754 bit patterns and never computes with them.
