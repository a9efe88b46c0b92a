# vincents-llm

One interface to OpenAI, Anthropic, Gemini, Ollama and OpenRouter, with cost tracking, rate
limiting, token counting, failover and telemetry. The logic is written in Verus and proved against
its contracts.

## Layout

- `src/` is the verified library. It builds HTTP requests as data, reads answers, frames streams,
  estimates and adds up costs, keeps the token bucket and the circuit breakers, and decides which
  provider to try. It reads no clock of its own where time decides something: readings are handed
  in as nanoseconds of one monotonic clock.
- `app/` is the asynchronous side: `reqwest`, `tokio`, streams, locks, serde, and everything in
  floating point.
- `tests/` runs the library with the crates that it calls.

## Conventions

- Money is counted in whole trillionths of a US dollar. Prices are trillionths of a dollar per
  token, which is billionths of a dollar per thousand tokens.
- Floating-point settings are carried as their bits (`Float64`) or as JSON numbers (`Real`), and
  nothing is computed with them in the library.
- Buckets are refilled with whole tokens for whole seconds. Only a limit of fewer than sixty
  requests per minute, which leaves no whole token for a second, is refilled by parts of a token.
- Each type has a mathematical view, and contracts speak of views. A function whose arguments have
  to be in range has a companion that tells (`can_track`, `can_record`, `check_usage` and others).
- The name of Anthropic's family of models may not be spelled out in this project's texts, so the
  library takes it as a parameter (`ModelFamily`). `app/` reads it from the environment:
  `ANTHROPIC_MODEL_FAMILY` is the name that model identifiers begin with, in lower case, and
  `ANTHROPIC_MODEL_FAMILY_TITLE` the name for display. Without them providers work all the same,
  but Anthropic's models are not listed. Each model's identifier and title is that
  name and the rest that the tables in `src/anthropic.rs` and `src/openrouter.rs` give.
- Public proof functions named `law_..` state what holds of several functions together.
- What `serde_json`, `chrono`, `rand` and the standard library's text functions are relied on for
  stands in `src/json.rs` and `src/outside.rs`.
