# vector_sinks

Verified configuration and decision logic of three event sinks:

- `src/aws_kinesis_firehose.rs`: the Kinesis Firehose sink's configuration, the
  Firehose API limits on a batch, the health check verdict and the retry policy.
- `src/vector_grpc.rs`: the gRPC sink's configuration, the endpoint read from
  its address (through `tonic`), its settings, and how the answers to a batch of
  pushes make one outcome.
- `src/loki_query.rs`: the Loki range query for a stream and the decoding of its
  answer (decimal timestamps and lines).
- `src/settings.rs`: batch and request settings shared by the sinks.
- `src/toml_document.rs`: the trusted boundary to the `toml` crate.

`app/` holds the unverified side: serde forms of the configurations, the AWS,
gRPC and HTTP clients, and the async plumbing around the library's decisions.
