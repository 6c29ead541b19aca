# testing_framework_runner

Deployment logic for test clusters whose nodes run either as local
processes or as a Helm release on Kubernetes, written in Verus with its
behaviour stated as `requires`/`ensures` contracts and proved.

- `src/` is the verified library.
  - `k8s/`: Helm chart values and install arguments, manifest rendering,
    service discovery and access decisions for attached clusters,
    port-forward registries, the node bookkeeping of managed and manual
    clusters, cleanup decisions, and the errors reported for each.
  - `local/`: binary providers and their cache keys and lock protocol,
    launch specs, port reservation and peer lists, the node registry of a
    local cluster, external endpoints, and network readiness summaries.
  - `scenario.rs`, `named_map.rs`, `text.rs`: start options and cluster
    shapes, a name-keyed map, and the string functions the contracts use.
- `app/` holds what cannot be verified: running `helm` and `kubectl`,
  file system and environment access, conversions from Kubernetes API
  objects, and YAML rendering of the chart values.
- `tests/` exercises the library on concrete values.
