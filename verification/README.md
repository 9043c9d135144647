# rpxy configuration logic, verified

The configuration and routing decisions of the rpxy reverse proxy, written
in Verus with their contracts proved.

- `src/config.rs` — the parsed configuration file, the settings built from
  it (`build_settings`) and the resolution of `data_dir` against the
  configuration file's directory (`resolve_data_dir`).
- `src/paths.rs` — `std::path` calls and `resolve_path_against_data_dir`.
- `src/acme.rs` — the ACME certificate cache file names, the rewriting of an
  ACME application's TLS paths (`build_tls_for_app_acme`) and the parameters
  of the ACME manager (`build_acme_manager`).
- `src/certs.rs` — the certificate sources of the TLS applications
  (`build_cert_manager`), and the proof that ACME applications read their
  certificates from the ACME manager's registry.
- `src/backend.rs` — server names, backend applications, their builder, and
  the manager that finds the application of an incoming server name
  (`find_app`: exact name first, then wildcard patterns).
- `src/keyed.rs`, `src/text.rs`, `src/error.rs`, `src/opts.rs` — supporting
  definitions.
- `app/` — the command-line program: options, reading and parsing the TOML
  file, hot-reload loading, and the error messages.
