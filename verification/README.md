# pi_cli_core

The decision-making core of the `pi` coding-agent command line, written in
Verus and proved against its contracts.

`src/` holds the logic; each public function states what it returns in its
`ensures`, over spec functions of the same module:

- `args`: the argument parser, the app mode it selects, and the arguments
  kept for follow-up interactive iterations.
- `run_plan`: what a run answers from the arguments alone (version, help,
  export, model listing, refused modes) and where its session comes from.
- `rpc`: decoding RPC command objects (already read as JSON), the checks a
  command passes before it runs and the answer to a refused one, prompt
  routing, response objects, the command list and the session and
  extension state.
- `rpc_events`, `rpc_replies`: how agent events and command results are
  written on the RPC stream, and the decisions of `set_model` and `fork`.
- `session_stats`, `transcript`, `changelog`, `compaction`: the message
  counts and token sums of `/session` and `get_session_stats`, the text
  `/copy` takes, what `/changelog` shows, and when the session compacts
  itself after a reply.
- `settings_file`: editing the settings file's JSON object when settings
  or the model scope are saved.
- `slash`: classifying submitted editor text, parsing built-in slash
  commands, refusing them in the states where they cannot run, the
  command menu and model cycling.
- `scoped_models`, `scoped_picker`: the scoped-model list (toggle, enable,
  clear, reorder, save) and the picker built on it.
- `settings_picker`, `session_picker`, `tree_picker`, `tree_items`, `list_picker`: the other
  pickers, as state machines from key to next state and outcome.
- `transition`, `messages`, `keys`, `share`, `paths`, `thinking`, `text`,
  `listnav`, `catalog_order`: status lines, printed text, key labels, gist
  links, path resolution, thinking levels and the text and list helpers.

Laws that relate several functions are public proof functions named
`lemma_*` in the modules they concern.

The pickers do not read the terminal: the front end maps key presses to the
key enums, passes fuzzy-filter results in, and draws the returned lines.
`app/` holds that front end's edges: JSON text in and out of the RPC
protocol, the settings and changelog files, the clock, the environment,
costs (floating point) and the `gh` process.
