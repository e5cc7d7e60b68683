# blueprint_editor

The verified core of the Blueprint Editor plugin, a node-graph editor for
visual scripting. `src/` holds the editor's state and decisions, proved with
Verus; `app/` connects them to the host's plugin interface, to GPUI and to the
disk.

- `interaction`: how the canvas reacts to presses, moves, releases and keys,
  by gesture priority; laws on right clicks, panning and releases.
- `graph`: nodes, pins and connections; which node and pin row a wire
  attaches to, which wires are drawn, what is selected, and deleting the
  selection with the wires that touch it.
- `node_card`: node colours, macro badges and double clicks, drop targets,
  comment selection and resize handles.
- `hex_color`: `#RRGGBB` / `#RRGGBBAA` colour strings.
- `layout`: node card measures and where pin rows sit in a card.
- `panel`: the editor panel's file, title and unsaved-changes state; saving,
  reloading and autosave decisions.
- `paths`: autosave file names, beside the blueprint's file.
- `registry`: the editors a plugin holds, under ids that are never reused.
- `plugin`, `workspace`, `compiler`, `text`: what the plugin announces, the
  docked panels, the compiler panel texts, decimal rendering.
