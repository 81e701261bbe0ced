# nfw_core_application

The application layer of the `nfw` command-line tool: adding services to a
workspace, adding modules (web API, persistence, mediator) to a service,
generating repositories and other artifacts from templates, and managing the
template sources and their catalogs.

## Layout

- `src/` is the library, verified with Verus. Its public functions state their
  results in `ensures`, and the laws of the library are public proof functions.
  Where a function calls a store, an engine or another trait that users
  implement, its `ensures` states what holds whatever the implementation
  answers; what it hands the implementation is fixed by a verified function of
  its own (`record`, `generation_request`, the `*_step` functions), and what it
  makes of the answer by another (`provenance_outcome`, the `resume` methods).
  - `service_management/`: the `add service` command, from request checks and
    generator selection to the generation plan and its execution.
  - `template_management/`: template sources and catalogs, template metadata,
    template parameters, the module and artifact commands, and the file
    tracking that undoes a failed generation.
  - `sorting.rs`, `text.rs`, `yaml.rs`, `workspace_root.rs`: the stable sort,
    text helpers, the YAML document model and the workspace-root search that
    the rest builds on.
- `app/` runs the library against the disk and the terminal. The commands that
  alternate file access and decisions are state machines in `src/`: their
  `handle` or `prepare_*` method gives the first step, `resume*` takes the
  caller's answer to a step and gives the next one, and `app/` performs each
  step until the command is finished.
- `tests/` exercises the library on concrete values.
