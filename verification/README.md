# Securenetes

A security and compliance audit for Kubernetes clusters, with a report laid
out after the BSI C5 audit report. The checks, the report model, the Markdown
and HTML renderers and the state of the web interface are a library verified
with Verus; the command-line program and the web server around it are plain
Rust.

## Layout

- `src/` — the verified library
  - `cluster.rs`: what the checks read of the cluster's objects, as plain values
  - `checks/`: one module per check (RBAC, secrets, pod security, network
    policies, ingress/exposure, images, logging, API server, etcd, TLS/web);
    each states in its contract exactly which findings come out;
    `guarantees.rs` holds properties shared by all of them, and `codes.rs`
    shows that findings of different checks never share an id. Within a
    check, ids are distinct where the objects they name are: each check
    states the condition (for instance, pods with at most one container and
    distinct names)
  - `models.rs`, `config.rs`, `time.rs`: findings and reports, the audit
    configuration, instants in time
  - `reporting/`: the Markdown and HTML reports
  - `services/`, `handlers/`, `templates.rs`: the state of the web interface,
    the assembly of reports, and what each page shows
  - `text.rs`, `seqs.rs`: string and sequence helpers
- `app/` — the `securenetes` program: reads the YAML configuration, queries
  the cluster through `kube`, probes web endpoints with `reqwest`, writes the
  report (JSON through `serde_json`) or serves the web interface with `axum`
- `tests/` — tests of the library on concrete values

## Running

```bash
securenetes --config examples/config.yaml --output-dir reports --format markdown
securenetes --config examples/config.yaml --serve 127.0.0.1:8080
```
