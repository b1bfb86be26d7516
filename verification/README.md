# aptos_secure_net

A verified library with two parts:

- `src/indexer_grpc_config.rs`: the indexer gRPC section of a node config, and
  the step that fills in its defaults, proved against a spec of its own
  (`IndexerGrpcConfigView::optimized`) together with the laws it keeps.
- `src/network_controller.rs`: the message types of the secure network, and
  the controller that hands out crossbeam channels and keeps the registry of
  which message types are received and which are sent to which peer.

`app/` holds the serde forms of these types and the conversions between
`std::net::SocketAddr` and the library's `PeerAddress`.
