# codex-gateway

A gateway that bridges a local `codex app-server` to OpenAI-compatible Chat Completions and
Responses APIs.

- `src/` is the library, written in Verus. It translates requests into prompts, speaks the
  app-server protocol, keeps track of open requests and running turns, and turns the events
  of a turn into an answer or a stream. Every function has a contract, but for the reading
  of the clock, of which nothing is known. The laws that span several functions are proof
  functions whose names start with `law_`.
- `app/` is the program around the library: the command line, the Codex subprocess and the
  HTTP server.
- `tests/` runs the library on concrete values.

| Module | What it holds |
| --- | --- |
| `config`, `auth` | Settings and their validation, bearer authentication |
| `json`, `codec` | JSON values, and their passage through `serde_json` |
| `translate` | Prompts, forced functions and output schemas of requests |
| `api` | What each route asks of Codex, or why it refuses |
| `protocol`, `app_server`, `table` | Messages of the app-server, open requests, running turns |
| `turn`, `chat`, `responses`, `frame` | The course of a turn, answers and streams |
| `runs` | Laws on whole runs of turns |
| `text`, `ident`, `error` | Plain text, identifiers and the clock, errors |

What is not proved is what the functions marked `external_body` say of `serde_json`, `uuid`
and the system clock, in `codec` and `ident`.
