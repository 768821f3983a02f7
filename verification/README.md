# astropress_cli

The decision logic of `astropress new`, with machine-checked contracts.

- `src/` — the verified library:
  - `providers`, `features`: the optional services of a new project and how
    the command-line flags pick them;
  - `manifest`, `string_map`: the `package.json` fields the scaffolder edits
    and the pinning of the scoped package;
  - `env`: reading and writing `.env` files and resolving the local provider
    and deploy target;
  - `git`: the repository set-up as a step function (check for a work tree,
    then `git init`);
  - `scaffold`, `notes`: the order of the steps of a scaffold run, its
    remaining computations and the text printed afterwards;
  - `text`: string helpers.
- `app/` — file-system, process and console plumbing around the library, and
  the drivers that take the scaffold steps in the library's order.
- `tests/` — tests of the library.
