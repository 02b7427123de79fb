//! Configuration and decision logic of a set of event sinks: the AWS Kinesis
//! Firehose sink, the Vector gRPC sink and the Loki query decoding used to read
//! delivered streams back.

pub mod settings;
pub mod toml_document;
pub mod aws_kinesis_firehose;
pub mod vector_grpc;
pub mod loki_query;
