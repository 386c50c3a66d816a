# kube-dra

Building blocks for Kubernetes Dynamic Resource Allocation (DRA) kubelet
plugins, with the decisions of the plugin proved in Verus.

- `src/` is the verified library: the plugin builder and its checks and
  defaults (`plugin.rs`), the socket endpoints (`endpoint.rs`), the answers of
  the registration service and the DRA API version names (`registration.rs`),
  the background errors (`error.rs`), and the data types a driver exchanges
  with the plugin (`dra_driver.rs`, `resource_slice.rs`, `driver.rs`).
- `app/` is the async runtime around it: the `DraDriver` trait, the gRPC
  services and the tasks that serve them on Unix domain sockets.
- `tests/` exercises the library.
