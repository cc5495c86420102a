# yaml_validator_cli

Errors of a YAML schema validator and the command-line front end that reports them,
with their behaviour stated and proved in Verus.

- `src/breadcrumb.rs`: paths (`.field`, `[index]`) that locate an error in a document.
- `src/errors/`: schema errors, their conversion from generic errors, the text written
  for them (one line per error, `#<path>: <message>`), and the laws that tie these together.
- `src/yaml.rs`: reading YAML text with `yaml_rust` (a trusted wrapper).
- `src/cli.rs`: the options, the front end's errors, and how loaded files are gathered.
- `src/run.rs`: the order of a run as a machine that asks for work and decides what follows.
- `app/main.rs`: argument parsing, file reading and the loop that drives a run. The schema
  engine it calls (`Context`, `Validate`) belongs to the yaml-validator library and is not
  part of this workspace, so `app/` does not build here.
