# runeweb

A small web host whose routes come from a KDL configuration file and from
Rune scripts.

- `src/` is the verified library:
  - `config`: the configuration model, its defaults, and the resolution of a
    decoded document (where settings may be missing) into a configuration.
  - `logging`: what the logging set-up installs for a configuration and the
    clock's reading, and the decimal naming of log files.
  - `routing`: the table of script routes (paths are stored with a leading
    `/`), lookup by exact path, and the replies for found and missing routes.
  - `scripts`: values scripts return, and the overall result of loading all
    scripts.
- `app/` is the program: reading the configuration file (knus), installing the
  log subscriber (tracing-subscriber), mounting file routes (axum,
  tower-http), compiling and running scripts (rune) and serving requests.
