# ahreumcode

The runtime core of AhreumCode, a terminal coding agent for local language
models, written in Verus. The library decides; the terminal front end in
`app/` reads keys, draws, parses JSON replies and prints.

## Layout

- `src/` — the verified library.
  - `text`, `layout`: strings, trimming, decimal and hex rendering, line
    splitting, wrapping to a column width, fitting with an ellipsis, panel
    windows.
  - `command`, `key_input`, `approval`, `expanded_form`, `scenes`: the command
    registry and surface, the approval surface, setup forms (`form_lines`:
    the lines a form draws), and what every key does on the intro and main
    scenes.
  - `workspace`, `workspace_lines`, `working_process`, `state`, `epilogue`:
    the session log and the styled lines it is drawn as, the running-work
    indicator, the whole UI state and the closing summary.
  - `persona`, `persona_prompt`, `persona_runtime`: the persona panel, the turn
    prompts and the team runtime that schedules persona turns.
  - `llm`, `runtime_request`, `tool_loop`, `runtime_workspace`,
    `conversation`: decisions, tool observations, the evidence boundaries that
    decide when an answer may close a task, the tool-loop steps and limits, and
    the follow-up requests sent to the model.
- `tests/` — tests of the library on concrete values.
- `app/` — the ratatui/crossterm front end.

Laws of the library stand as public proof functions (`lemma_*`) beside the
functions they relate.
