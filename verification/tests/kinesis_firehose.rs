use vector_sinks::aws_kinesis_firehose::{
    is_retriable_error, AwsAuthentication, AwsRequestError, BuildError, Compression,
    EncodingConfig, HealthcheckError, KinesisFirehoseSinkConfig, KinesisRetryLogic,
    PutRecordBatchError, RegionOrEndpoint, StandardEncodings, MAX_PAYLOAD_EVENTS,
    MAX_PAYLOAD_SIZE,
};
use vector_sinks::aws_kinesis_firehose::{CredentialsChoice, MissingRegion, RegionChoice};
use vector_sinks::settings::{BatchConfig, DataType, TowerRequestConfig};

fn config_with_batch(batch: BatchConfig) -> KinesisFirehoseSinkConfig {
    KinesisFirehoseSinkConfig {
        stream_name: "my-stream".to_string(),
        region: RegionOrEndpoint { region: Some("us-east-1".to_string()), endpoint: None },
        encoding: EncodingConfig { codec: StandardEncodings::Json },
        compression: Compression::Disabled,
        batch,
        request: TowerRequestConfig::default(),
        assume_role: None,
        auth: AwsAuthentication::Default,
    }
}

fn batch(max_bytes: Option<usize>, max_events: Option<usize>) -> BatchConfig {
    BatchConfig { max_bytes, max_events, timeout_secs: None }
}

#[test]
fn api_limits_are_four_mib_and_500_events() {
    assert_eq!(MAX_PAYLOAD_SIZE, 4_194_304);
    assert_eq!(MAX_PAYLOAD_EVENTS, 500);
}

#[test]
fn default_batch_takes_sink_defaults() {
    let settings = config_with_batch(BatchConfig::default()).build_settings().unwrap();
    assert_eq!(settings.batch.bytes, 4_000_000);
    assert_eq!(settings.batch.events, 500);
    assert_eq!(settings.batch.timeout_secs, 1);
    assert_eq!(settings.request.concurrency, None);
}

#[test]
fn configured_batch_overrides_defaults() {
    let cfg = config_with_batch(BatchConfig {
        max_bytes: Some(1000),
        max_events: Some(10),
        timeout_secs: Some(7),
    });
    let settings = cfg.build_settings().unwrap();
    assert_eq!(settings.batch.bytes, 1000);
    assert_eq!(settings.batch.events, 10);
    assert_eq!(settings.batch.timeout_secs, 7);
}

#[test]
fn batch_at_api_limits_is_accepted() {
    let cfg = config_with_batch(batch(Some(MAX_PAYLOAD_SIZE), Some(MAX_PAYLOAD_EVENTS)));
    let settings = cfg.build_settings().unwrap();
    assert_eq!(settings.batch.bytes, MAX_PAYLOAD_SIZE);
    assert_eq!(settings.batch.events, MAX_PAYLOAD_EVENTS);
}

#[test]
fn batch_max_size_too_high_is_rejected() {
    let cfg = config_with_batch(batch(Some(MAX_PAYLOAD_SIZE + 1), None));
    assert_eq!(cfg.build_settings().unwrap_err(), BuildError::BatchMaxSize);
}

#[test]
fn batch_max_events_too_high_is_rejected() {
    let cfg = config_with_batch(batch(None, Some(501)));
    assert_eq!(cfg.build_settings().unwrap_err(), BuildError::BatchMaxEvents);
}

#[test]
fn size_error_comes_before_events_error() {
    let cfg = config_with_batch(batch(Some(5_000_000), Some(1000)));
    assert_eq!(cfg.build_settings().unwrap_err(), BuildError::BatchMaxSize);
}

#[test]
fn accepted_batches_fit_api_limits_on_examples() {
    for bytes in [None, Some(0), Some(1), Some(4_000_000), Some(MAX_PAYLOAD_SIZE)] {
        for events in [None, Some(0), Some(1), Some(499), Some(500)] {
            let settings = config_with_batch(batch(bytes, events)).build_settings().unwrap();
            assert!(settings.batch.bytes <= MAX_PAYLOAD_SIZE);
            assert!(settings.batch.events <= MAX_PAYLOAD_EVENTS);
        }
    }
}

#[test]
fn build_error_messages() {
    assert_eq!(
        BuildError::BatchMaxSize.message(),
        "Batch max size is too high. The value must be 4194304 bytes or less"
    );
    assert_eq!(
        BuildError::BatchMaxEvents.message(),
        "Batch max events is too high. The value must be 500 or less"
    );
}

#[test]
fn kinesis_types() {
    let cfg = config_with_batch(BatchConfig::default());
    assert_eq!(cfg.input_type(), DataType::Log);
    assert_eq!(cfg.sink_type(), "aws_kinesis_firehose");
}

#[test]
fn healthcheck_matching_name_passes() {
    let cfg = config_with_batch(BatchConfig::default());
    assert!(cfg.healthcheck_result(Ok("my-stream".to_string())).is_ok());
}

#[test]
fn healthcheck_other_name_fails() {
    let cfg = config_with_batch(BatchConfig::default());
    match cfg.healthcheck_result(Ok("other-stream".to_string())) {
        Err(HealthcheckError::StreamNamesMismatch { name, stream_name }) => {
            assert_eq!(name, "other-stream");
            assert_eq!(stream_name, "my-stream");
        }
        other => panic!("unexpected {:?}", other),
    }
}

#[test]
fn healthcheck_describe_failure_is_reported() {
    let cfg = config_with_batch(BatchConfig::default());
    match cfg.healthcheck_result(Err("connection refused".to_string())) {
        Err(HealthcheckError::DescribeDeliveryStreamFailed { source }) => {
            assert_eq!(source, "connection refused");
        }
        other => panic!("unexpected {:?}", other),
    }
}

#[test]
fn healthcheck_messages() {
    let mismatch = HealthcheckError::StreamNamesMismatch {
        name: "a".to_string(),
        stream_name: "b".to_string(),
    };
    assert_eq!(mismatch.message(), "Stream name does not match, got a, expected b");
    let failed = HealthcheckError::DescribeDeliveryStreamFailed { source: "boom".to_string() };
    assert_eq!(failed.message(), "DescribeDeliveryStream failed: boom");
}

#[test]
fn service_unavailable_is_retried() {
    let logic = KinesisRetryLogic;
    let err = AwsRequestError::Service(PutRecordBatchError::ServiceUnavailable("busy".to_string()));
    assert!(logic.is_retriable_error(&err));
}

#[test]
fn other_service_errors_are_not_retried() {
    let logic = KinesisRetryLogic;
    for e in [
        PutRecordBatchError::InvalidArgument("x".to_string()),
        PutRecordBatchError::InvalidKMSResource("x".to_string()),
        PutRecordBatchError::ResourceNotFound("x".to_string()),
    ] {
        assert!(!logic.is_retriable_error(&AwsRequestError::Service(e)));
    }
}

#[test]
fn transport_and_server_errors_are_retried() {
    let logic = KinesisRetryLogic;
    let dispatch: AwsRequestError<PutRecordBatchError> =
        AwsRequestError::HttpDispatch("reset".to_string());
    assert!(logic.is_retriable_error(&dispatch));
    for status in [500u16, 503, 599, 429] {
        let err: AwsRequestError<PutRecordBatchError> = AwsRequestError::Unknown { status };
        assert!(logic.is_retriable_error(&err));
        assert!(is_retriable_error(&err));
    }
    for status in [200u16, 400, 403, 404, 428, 430, 499, 600] {
        let err: AwsRequestError<PutRecordBatchError> = AwsRequestError::Unknown { status };
        assert!(!logic.is_retriable_error(&err));
    }
}

#[test]
fn client_side_errors_are_not_retried() {
    let logic = KinesisRetryLogic;
    let errs: Vec<AwsRequestError<PutRecordBatchError>> = vec![
        AwsRequestError::Credentials("none".to_string()),
        AwsRequestError::Validation("bad".to_string()),
        AwsRequestError::ParseError("bad".to_string()),
        AwsRequestError::Blocking,
    ];
    for e in errs {
        assert!(!logic.is_retriable_error(&e));
        assert!(!is_retriable_error(&e));
    }
}

#[test]
fn generate_config_reads_the_example() {
    let value = KinesisFirehoseSinkConfig::generate_config().expect("example parses");
    let table = value.as_table().expect("a table");
    assert_eq!(table.len(), 3);
    assert_eq!(table.get("region").and_then(|v| v.as_str()), Some("us-east-1"));
    assert_eq!(table.get("stream_name").and_then(|v| v.as_str()), Some("my-stream"));
    let codec = table
        .get("encoding")
        .and_then(|v| v.as_table())
        .and_then(|t| t.get("codec"))
        .and_then(|v| v.as_str());
    assert_eq!(codec, Some("json"));
}

fn region_of(region: Option<&str>, endpoint: Option<&str>) -> RegionOrEndpoint {
    RegionOrEndpoint { region: region.map(|s| s.to_string()), endpoint: endpoint.map(|s| s.to_string()) }
}

#[test]
fn region_choice_cases() {
    assert_eq!(
        region_of(Some("us-east-1"), None).region_choice(),
        Ok(RegionChoice::Named("us-east-1".to_string()))
    );
    assert_eq!(
        region_of(Some("eu-west-1"), Some("http://localhost:4573")).region_choice(),
        Ok(RegionChoice::Custom {
            name: "eu-west-1".to_string(),
            endpoint: "http://localhost:4573".to_string()
        })
    );
    assert_eq!(
        region_of(None, Some("http://localhost:4573")).region_choice(),
        Ok(RegionChoice::Custom { name: "custom".to_string(), endpoint: "http://localhost:4573".to_string() })
    );
    assert_eq!(region_of(None, None).region_choice(), Err(MissingRegion));
    assert_eq!(MissingRegion.message(), "Either \"region\" or \"endpoint\" option must be specified");
}

#[test]
fn credentials_choice_cases() {
    let mut cfg = config_with_batch(BatchConfig::default());
    assert_eq!(cfg.credentials_choice(), CredentialsChoice::DefaultChain);
    cfg.auth = AwsAuthentication::Static { access_key_id: "k".to_string(), secret_access_key: "s".to_string() };
    assert_eq!(
        cfg.credentials_choice(),
        CredentialsChoice::Static { access_key_id: "k".to_string(), secret_access_key: "s".to_string() }
    );
    cfg.auth = AwsAuthentication::File { credentials_file: "/c".to_string(), profile: None };
    assert_eq!(
        cfg.credentials_choice(),
        CredentialsChoice::File { credentials_file: "/c".to_string(), profile: "default".to_string() }
    );
    cfg.assume_role = Some("arn:old".to_string());
    assert_eq!(cfg.credentials_choice(), CredentialsChoice::AssumeRole { role_arn: "arn:old".to_string() });
    cfg.auth = AwsAuthentication::Role { assume_role: "arn:new".to_string() };
    assert_eq!(cfg.credentials_choice(), CredentialsChoice::AssumeRole { role_arn: "arn:new".to_string() });
}
