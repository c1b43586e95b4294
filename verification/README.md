# muxterm_frontend

The logic of a terminal multiplexer's frontend, verified with Verus: what the
frontend asks of the core behind its C interface, how it reads the answers, what
its windows, panels and lists show, and what follows from a key, a click or an
event.

Widgets, sockets and clocks are left to the callers. A decision is a function
from values to values: it returns the call to make, the row to show or the next
state, and its contract says which one. A sequence of outside steps is a state
machine; the caller performs a step and hands back what came of it.

## Layout

| Path | Content |
| --- | --- |
| `src/client/` | calls of the core (`call`, `query`, `runtime`), their answers (`error`, `event`, `snapshot`, `gather`, `attention`), the configuration and its transactions (`config`, `request`) and the values that travel (`types`) |
| `src/command_queue.rs` | commands waiting for the core, and which of them merge |
| `src/cli/` | routing of the command line, and the text and JSON that queries print |
| `src/linux/` | the window: layout, rendering policy, input, actions, panel, sidebar, lists, settings, opening of workspaces |
| `src/linux/terminal/` | readable colours in a byte stream and the parser that reports its styles, styled text, the bundled font |
| `src/json.rs`, `src/json/` | writing and reading JSON text |
| `src/text.rs`, `src/text/`, `src/seqs.rs`, `src/text_map.rs` | strings, sequences and maps with contracts over `Seq<char>` and `Map` |
| `src/workspace_id.rs` | the identity of a workspace and its text |
| `app/` | serde copies of the values, the C interface as a trait, floating point, fonts, the command line |
| `tests/` | the behaviour on concrete values |

## Contracts

Strings are spoken of through their characters, a `Seq<char>`. Results of serde,
of Unicode case mapping and of the terminal parser that are only named
(`json_parsed`, `json_members_of`, `json_elements_of`, `json_string_of`,
`json_reparsed`, `utf8_lossy`, `lowercase_of`, `uppercase_of_char`, `fed`,
`completed`, `variant_named`, `color_named`) appear in contracts under those names. What is decided from such a
result is decided by a function that takes it as an argument.

Properties that span several functions are public proof functions whose names
begin with `law_`.
