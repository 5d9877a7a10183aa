# local_stt

The local speech-to-text plugin: it keeps models on this machine, starts and
stops the servers that run them, and remembers where the models are kept.

- `src/` is the verified library. It decides everything. Of the world outside
  it looks only at the directory for user data, which it finds from the
  environment, and at the registry of the actors in this process. A request
  that needs other work gives a *step* that names the work; the caller carries
  it out and hands the result to the step's `resume`.
  - `plugin.rs`: the requests.
  - `model.rs`, `error.rs`, `text.rs`: models, servers, errors and text.
  - `location.rs`: places in the file system, as a root and the names below it.
  - `settings.rs`: the settings, and the steps that save them.
  - `registry.rs`: actors that were looked up by name.
  - `health.rs`, `servers.rs`: which server is asked, looked at and stopped.
  - `start.rs`: the steps that start the server of a model.
  - `downloads.rs`: requests to the downloader.
  - `settings_laws.rs`, `start_laws.rs`: what holds of whole attempts.
- `app/` carries out the steps: files, actors, ports and the downloader. The
  application implements the traits of `app/host.rs`.
- `tests/` runs the library on concrete values.
