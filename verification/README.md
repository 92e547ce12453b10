# swarmd

The `swarmd` command line tool deploys workers to the Swarmd edge network.

- `src/` is the library, whose functions carry proved contracts: project slugs (`slug_rs`), the
  token and its claims (`auth`), the worker configuration and the decisions of
  a deployment (`worker_config`), the API models and client configuration
  (`models`, `client`), the configuration read from the environment and the
  sign-in URL (`config`), self update (`update`), the development server
  (`dev`), the login server (`login`), the command line arguments and the deployment steps (`cli`),
  and the log levels, bootstrap options and exit code of the local runtime
  (`runtime`); the exit code is shared through an atomic, and its value has
  no contract.
- `app/` is the program around it: argument parsing, files, HTTP, the browser,
  the file watcher and the local worker.
- `tests/` runs the library on concrete values.
