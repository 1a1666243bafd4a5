# lenvironment

`lenv` manages Linux environments kept in Docker containers: create, enter,
start, stop, restart, inspect, list and remove them.

- `src/` is the library, verified with Verus: the rules on environment names
  and user names, mount specifications, the `docker` command lines for every
  operation, the provisioning commands of each distribution, the reading of
  `docker inspect`, the shell search on `enter`, the `list` table and the
  `doctor` report.
- `app/` is the `lenv` program: argument parsing, running `docker`, the
  environment files on disk, progress spinners and colours.
- `tests/` runs the library on concrete values.
