//! The AWS Kinesis Firehose sink: its configuration, the limits that the
//! Firehose API puts on a batch, the health check and the retry decision.

use vstd::prelude::*;
use vstd::string::StringExecFns;
use crate::toml_document::{parse_toml, toml_document_value};
use crate::settings::{
    BatchConfig, BatchSettings, DataType, TowerRequestConfig, spec_empty_request,
    spec_parse_batch, spec_unwrap_with,
};

verus! {

/// The Firehose API accepts payloads of at most 4 MiB.
pub const MAX_PAYLOAD_SIZE: usize = 1024 * 1024 * 4;

/// The Firehose API accepts at most 500 records in one batch.
pub const MAX_PAYLOAD_EVENTS: usize = 500;

/// The AWS region the sink talks to, or an explicit endpoint.
#[derive(Clone, Debug)]
pub struct RegionOrEndpoint {
    pub region: Option<String>,
    pub endpoint: Option<String>,
}

/// How records are encoded before they are sent.
#[derive(Clone, Copy, Debug, PartialEq, Eq)]
pub enum StandardEncodings {
    Text,
    Json,
    Ndjson,
}

/// The encoding configuration of a sink.
#[derive(Clone, Copy, Debug)]
pub struct EncodingConfig {
    pub codec: StandardEncodings,
}

/// Compression of request bodies.
#[derive(Clone, Copy, Debug, PartialEq, Eq)]
pub enum Compression {
    /// Bodies are sent as they are.
    Disabled,
    Gzip(u32),
}

/// Where the sink takes its AWS credentials from.
#[derive(Clone, Debug)]
pub enum AwsAuthentication {
    Static { access_key_id: String, secret_access_key: String },
    File { credentials_file: String, profile: Option<String> },
    Role { assume_role: String },
    Default,
}

/// Where requests go: a named AWS region, or a custom endpoint under a name.
#[derive(Clone, Debug, PartialEq, Eq)]
pub enum RegionChoice {
    Named(String),
    Custom { name: String, endpoint: String },
}

/// The configuration names neither a region nor an endpoint.
#[derive(Clone, Copy, Debug, PartialEq, Eq)]
pub struct MissingRegion;

impl MissingRegion {
    /// The human-readable description of the error.
    pub fn message(&self) -> (res: &'static str)
        ensures
            res@ == "Either \"region\" or \"endpoint\" option must be specified"@,
    {
        "Either \"region\" or \"endpoint\" option must be specified"
    }
}

impl RegionOrEndpoint {
    /// Decides where requests go: an endpoint wins, named by the region when
    /// one is given and "custom" otherwise; else the named region; with
    /// neither, the configuration is refused.
    pub fn region_choice(&self) -> (res: Result<RegionChoice, MissingRegion>)
        ensures
            match (self.endpoint, self.region) {
                (Some(endpoint), Some(name)) => res matches Ok(RegionChoice::Custom { name: n, endpoint: e })
                    && n@ == name@ && e@ == endpoint@,
                (Some(endpoint), None) => res matches Ok(RegionChoice::Custom { name: n, endpoint: e })
                    && n@ == "custom"@ && e@ == endpoint@,
                (None, Some(name)) => res matches Ok(RegionChoice::Named(n)) && n@ == name@,
                (None, None) => res == Err::<RegionChoice, MissingRegion>(MissingRegion),
            },
    {
        match &self.endpoint {
            Some(endpoint) => {
                let name = match &self.region {
                    Some(name) => name.clone(),
                    None => String::from_str("custom"),
                };
                Ok(RegionChoice::Custom { name, endpoint: endpoint.clone() })
            },
            None => match &self.region {
                Some(name) => Ok(RegionChoice::Named(name.clone())),
                None => Err(MissingRegion),
            },
        }
    }
}

/// Which credentials the sink signs its requests with.
#[derive(Clone, Debug, PartialEq, Eq)]
pub enum CredentialsChoice {
    /// Credentials of a role assumed through STS.
    AssumeRole { role_arn: String },
    Static { access_key_id: String, secret_access_key: String },
    /// A profile of a credentials file.
    File { credentials_file: String, profile: String },
    /// The default chain: environment, profile files, instance metadata.
    DefaultChain,
}

/// Configuration of the Kinesis Firehose sink.
#[derive(Clone, Debug)]
pub struct KinesisFirehoseSinkConfig {
    pub stream_name: String,
    pub region: RegionOrEndpoint,
    pub encoding: EncodingConfig,
    pub compression: Compression,
    pub batch: BatchConfig,
    pub request: TowerRequestConfig,
    /// Deprecated name, moved to `auth`.
    pub assume_role: Option<String>,
    pub auth: AwsAuthentication,
}

/// Why a Kinesis Firehose sink cannot be built from its configuration.
#[derive(Clone, Copy, Debug, PartialEq, Eq)]
pub enum BuildError {
    BatchMaxSize,
    BatchMaxEvents,
}

impl BuildError {
    /// The human-readable description of the error.
    pub fn message(&self) -> (res: &'static str)
        ensures
            *self == BuildError::BatchMaxSize ==> res@
                == "Batch max size is too high. The value must be 4194304 bytes or less"@,
            *self == BuildError::BatchMaxEvents ==> res@
                == "Batch max events is too high. The value must be 500 or less"@,
    {
        match self {
            BuildError::BatchMaxSize => "Batch max size is too high. The value must be 4194304 bytes or less",
            BuildError::BatchMaxEvents => "Batch max events is too high. The value must be 500 or less",
        }
    }
}

/// The batch limits the sink starts from before the user's configuration
/// is applied: 4 000 000 bytes, 500 events, one second.
pub open spec fn kinesis_batch_defaults() -> BatchSettings {
    BatchSettings { bytes: 4_000_000, events: 500, timeout_secs: 1 }
}

/// A batch configuration whose size limit the Firehose API can take.
pub open spec fn batch_bytes_accepted(batch: BatchConfig) -> bool {
    batch.max_bytes.unwrap_or(0) <= MAX_PAYLOAD_SIZE
}

/// A batch configuration whose event limit the Firehose API can take.
pub open spec fn batch_events_accepted(batch: BatchConfig) -> bool {
    batch.max_events.unwrap_or(0) <= MAX_PAYLOAD_EVENTS
}

/// What the sink is built with once its configuration is accepted.
#[derive(Clone, Copy, Debug)]
pub struct KinesisSinkSettings {
    pub batch: BatchSettings,
    pub request: TowerRequestConfig,
}

/// The example configuration of the sink: a region, a stream name and the
/// JSON codec.
pub open spec fn example_config_text() -> Seq<char> {
    "region = \"us-east-1\"\n            stream_name = \"my-stream\"\n            encoding.codec = \"json\""@
}

impl KinesisFirehoseSinkConfig {
    /// The example configuration of the sink as the TOML value that `toml`
    /// reads from it.
    pub fn generate_config() -> (res: Option<toml::Value>)
        ensures
            res == toml_document_value(example_config_text()),
    {
        proof {
            reveal_strlit(
                "region = \"us-east-1\"\n            stream_name = \"my-stream\"\n            encoding.codec = \"json\"",
            );
        }
        parse_toml(
            "region = \"us-east-1\"\n            stream_name = \"my-stream\"\n            encoding.codec = \"json\"",
        )
    }

    /// Checks the batch limits against the Firehose API limits and settles the
    /// batch and request settings of the sink. A size limit that is too high is
    /// reported before an event limit that is too high.
    pub fn build_settings(&self) -> (res: Result<KinesisSinkSettings, BuildError>)
        ensures
            !batch_bytes_accepted(self.batch) ==> res == Err::<KinesisSinkSettings, BuildError>(
                BuildError::BatchMaxSize,
            ),
            batch_bytes_accepted(self.batch) && !batch_events_accepted(self.batch) ==> res
                == Err::<KinesisSinkSettings, BuildError>(BuildError::BatchMaxEvents),
            batch_bytes_accepted(self.batch) && batch_events_accepted(self.batch) ==> (res matches Ok(
                s,
            ) && s.batch == spec_parse_batch(kinesis_batch_defaults(), self.batch) && s.request
                == spec_unwrap_with(self.request, spec_empty_request())),
    {
        let max_bytes = match self.batch.max_bytes {
            Some(b) => b,
            None => 0,
        };
        if max_bytes > MAX_PAYLOAD_SIZE {
            return Err(BuildError::BatchMaxSize);
        }
        let max_events = match self.batch.max_events {
            Some(e) => e,
            None => 0,
        };
        if max_events > MAX_PAYLOAD_EVENTS {
            return Err(BuildError::BatchMaxEvents);
        }
        let batch = BatchSettings::new(4_000_000, 500, 1).parse_config(self.batch);
        let request = self.request.unwrap_with(&TowerRequestConfig::default());
        Ok(KinesisSinkSettings { batch, request })
    }

    /// Decides the credentials: a role in `auth` wins, then the deprecated
    /// `assume_role`; without a role, static keys or a credentials file as
    /// `auth` says (profile "default" when none is named), else the default chain.
    pub fn credentials_choice(&self) -> (res: CredentialsChoice)
        ensures
            match (self.auth, self.assume_role) {
                (AwsAuthentication::Role { assume_role }, _) => res matches CredentialsChoice::AssumeRole { role_arn }
                    && role_arn@ == assume_role@,
                (_, Some(role)) => res matches CredentialsChoice::AssumeRole { role_arn }
                    && role_arn@ == role@,
                (AwsAuthentication::Static { access_key_id, secret_access_key }, None) => res matches CredentialsChoice::Static { access_key_id: k, secret_access_key: s }
                    && k@ == access_key_id@ && s@ == secret_access_key@,
                (AwsAuthentication::File { credentials_file, profile: Some(p) }, None) => res matches CredentialsChoice::File { credentials_file: f, profile: q }
                    && f@ == credentials_file@ && q@ == p@,
                (AwsAuthentication::File { credentials_file, profile: None }, None) => res matches CredentialsChoice::File { credentials_file: f, profile: q }
                    && f@ == credentials_file@ && q@ == "default"@,
                (AwsAuthentication::Default, None) => res == CredentialsChoice::DefaultChain,
            },
    {
        match &self.auth {
            AwsAuthentication::Role { assume_role } => {
                return CredentialsChoice::AssumeRole { role_arn: assume_role.clone() };
            },
            _ => {},
        }
        match &self.assume_role {
            Some(role) => {
                return CredentialsChoice::AssumeRole { role_arn: role.clone() };
            },
            None => {},
        }
        match &self.auth {
            AwsAuthentication::Static { access_key_id, secret_access_key } => CredentialsChoice::Static {
                access_key_id: access_key_id.clone(),
                secret_access_key: secret_access_key.clone(),
            },
            AwsAuthentication::File { credentials_file, profile } => {
                let profile = match profile {
                    Some(p) => p.clone(),
                    None => String::from_str("default"),
                };
                CredentialsChoice::File { credentials_file: credentials_file.clone(), profile }
            },
            _ => CredentialsChoice::DefaultChain,
        }
    }

    /// The sink takes log events.
    pub fn input_type(&self) -> (res: DataType)
        ensures
            res == DataType::Log,
    {
        DataType::Log
    }

    /// The name under which the sink is registered.
    pub fn sink_type(&self) -> (res: &'static str)
        ensures
            res@ == "aws_kinesis_firehose"@,
    {
        "aws_kinesis_firehose"
    }

    /// Decides the health check from what describing the delivery stream gave:
    /// the stream's name, or the description of the failure.
    pub fn healthcheck_result(&self, described: Result<String, String>) -> (res: Result<
        (),
        HealthcheckError,
    >)
        ensures
            match described {
                Ok(name) => if name@ == self.stream_name@ {
                    res is Ok
                } else {
                    res == Err::<(), HealthcheckError>(
                        HealthcheckError::StreamNamesMismatch { name, stream_name: self.stream_name },
                    )
                },
                Err(source) => res == Err::<(), HealthcheckError>(
                    HealthcheckError::DescribeDeliveryStreamFailed { source },
                ),
            },
    {
        match described {
            Ok(name) => {
                if name == self.stream_name {
                    Ok(())
                } else {
                    Err(
                        HealthcheckError::StreamNamesMismatch {
                            name,
                            stream_name: self.stream_name.clone(),
                        },
                    )
                }
            },
            Err(source) => Err(HealthcheckError::DescribeDeliveryStreamFailed { source }),
        }
    }
}

/// Every batch configuration that the sink accepts gives batches that the
/// Firehose API takes: at most `MAX_PAYLOAD_SIZE` bytes and at most
/// `MAX_PAYLOAD_EVENTS` events.
pub proof fn lemma_accepted_batches_fit_api_limits(batch: BatchConfig)
    requires
        batch_bytes_accepted(batch),
        batch_events_accepted(batch),
    ensures
        spec_parse_batch(kinesis_batch_defaults(), batch).bytes <= MAX_PAYLOAD_SIZE,
        spec_parse_batch(kinesis_batch_defaults(), batch).events <= MAX_PAYLOAD_EVENTS,
{
}

/// Why the health check of a Kinesis Firehose sink failed.
#[derive(Clone, Debug)]
pub enum HealthcheckError {
    DescribeDeliveryStreamFailed { source: String },
    StreamNamesMismatch { name: String, stream_name: String },
}

impl HealthcheckError {
    /// The human-readable description of the failure.
    pub fn message(&self) -> (res: String)
        ensures
            match *self {
                HealthcheckError::DescribeDeliveryStreamFailed { source } => res@
                    == "DescribeDeliveryStream failed: "@ + source@,
                HealthcheckError::StreamNamesMismatch { name, stream_name } => res@
                    == "Stream name does not match, got "@ + name@ + ", expected "@ + stream_name@,
            },
    {
        match self {
            HealthcheckError::DescribeDeliveryStreamFailed { source } => {
                let mut res = String::from_str("DescribeDeliveryStream failed: ");
                res.append(source.as_str());
                res
            },
            HealthcheckError::StreamNamesMismatch { name, stream_name } => {
                let mut res = String::from_str("Stream name does not match, got ");
                res.append(name.as_str());
                res.append(", expected ");
                res.append(stream_name.as_str());
                res
            },
        }
    }
}

/// What went wrong with a request to AWS: the service's own error, or a
/// failure around it. An unknown failure keeps the HTTP status of the response.
#[derive(Clone, Debug)]
pub enum AwsRequestError<E> {
    Service(E),
    HttpDispatch(String),
    Credentials(String),
    Validation(String),
    ParseError(String),
    Unknown { status: u16 },
    Blocking,
}

/// The errors that the Firehose `PutRecordBatch` operation itself reports.
#[derive(Clone, Debug)]
pub enum PutRecordBatchError {
    InvalidArgument(String),
    InvalidKMSResource(String),
    ResourceNotFound(String),
    ServiceUnavailable(String),
}

/// The HTTP status "429 Too Many Requests".
pub const TOO_MANY_REQUESTS: u16 = 429;

/// A status in the 5xx class, a server error.
pub open spec fn is_server_error(status: u16) -> bool {
    500 <= status && status < 600
}

/// The failures of any AWS request that are worth another try: the request
/// could not be dispatched, or the service answered with a server error or
/// asked the client to slow down.
pub open spec fn aws_error_is_retriable<E>(error: AwsRequestError<E>) -> bool {
    match error {
        AwsRequestError::HttpDispatch(_) => true,
        AwsRequestError::Unknown { status } => is_server_error(status) || status
            == TOO_MANY_REQUESTS,
        _ => false,
    }
}

/// Decides whether a failed AWS request is worth another try.
pub fn is_retriable_error<E>(error: &AwsRequestError<E>) -> (res: bool)
    ensures
        res == aws_error_is_retriable(*error),
        error is HttpDispatch ==> res,
        *error matches AwsRequestError::Unknown { status } ==> (res <==> ((500 <= status && status
            < 600) || status == 429)),
        !(error is HttpDispatch) && !(error is Unknown) ==> !res,
{
    match error {
        AwsRequestError::HttpDispatch(_) => true,
        AwsRequestError::Unknown { status } => (500 <= *status && *status < 600) || *status
            == TOO_MANY_REQUESTS,
        _ => false,
    }
}

/// The failures of a `PutRecordBatch` request on which the Kinesis Firehose
/// sink tries again: the service reported itself unavailable, or the failure
/// is one that any AWS request tries again on.
pub open spec fn kinesis_error_is_retriable(error: AwsRequestError<PutRecordBatchError>) -> bool {
    match error {
        AwsRequestError::Service(PutRecordBatchError::ServiceUnavailable(_)) => true,
        _ => aws_error_is_retriable(error),
    }
}

/// The retry policy of the Kinesis Firehose sink.
#[derive(Clone, Copy, Debug)]
pub struct KinesisRetryLogic;

impl KinesisRetryLogic {
    /// Decides whether a failed `PutRecordBatch` request is worth another try.
    pub fn is_retriable_error(&self, error: &AwsRequestError<PutRecordBatchError>) -> (res: bool)
        ensures
            res == kinesis_error_is_retriable(*error),
            res <==> (*error matches AwsRequestError::Service(
                PutRecordBatchError::ServiceUnavailable(_),
            ) || aws_error_is_retriable(*error)),
            *error matches AwsRequestError::Service(e) ==> (res <==> e is ServiceUnavailable),
            error is HttpDispatch ==> res,
            *error matches AwsRequestError::Unknown { status } ==> (res <==> ((500 <= status
                && status < 600) || status == 429)),
            error is Credentials || error is Validation || error is ParseError || error is Blocking
                ==> !res,
    {
        match error {
            AwsRequestError::Service(PutRecordBatchError::ServiceUnavailable(_)) => true,
            other => is_retriable_error(other),
        }
    }
}

/// The Kinesis retry policy tries again on every failure that the policy for
/// any AWS request tries again on, and also when the service is unavailable.
pub proof fn lemma_kinesis_retries_extend_aws_retries(error: AwsRequestError<PutRecordBatchError>)
    ensures
        aws_error_is_retriable(error) ==> kinesis_error_is_retriable(error),
        error matches AwsRequestError::Service(PutRecordBatchError::ServiceUnavailable(_))
            ==> kinesis_error_is_retriable(error),
{
}

/// Every server error (a status from 500 to 599) and every "429 Too Many
/// Requests" is retried for any AWS request, as is a request that could not be
/// dispatched; every other status, and every other failure, is final.
pub proof fn lemma_aws_retry_classes<E>(error: AwsRequestError<E>)
    ensures
        forall|status: u16| 500 <= status < 600 ==> #[trigger] aws_error_is_retriable(
            AwsRequestError::<E>::Unknown { status },
        ),
        aws_error_is_retriable(AwsRequestError::<E>::Unknown { status: 429 }),
        forall|status: u16|
            !(500 <= status < 600) && status != 429 ==> !#[trigger] aws_error_is_retriable(
                AwsRequestError::<E>::Unknown { status },
            ),
        error is HttpDispatch ==> aws_error_is_retriable(error),
        error is Service || error is Credentials || error is Validation || error is ParseError
            || error is Blocking ==> !aws_error_is_retriable(error),
{
}

/// The Kinesis policy retries a `PutRecordBatch` failure exactly when the
/// service reported itself unavailable or the policy for any AWS request
/// retries it: nothing more, nothing less.
pub proof fn lemma_kinesis_retries_exactly(error: AwsRequestError<PutRecordBatchError>)
    ensures
        kinesis_error_is_retriable(error) <==> (error matches AwsRequestError::Service(
            PutRecordBatchError::ServiceUnavailable(_),
        ) || aws_error_is_retriable(error)),
        forall|status: u16|
            #[trigger] kinesis_error_is_retriable(AwsRequestError::Unknown { status }) <==> ((500
                <= status && status < 600) || status == 429),
{
}

/// Errors reported by the service that are not unavailability are final:
/// the Kinesis policy does not try again on them.
pub proof fn lemma_other_service_errors_are_final(error: PutRecordBatchError)
    requires
        !(error is ServiceUnavailable),
    ensures
        !kinesis_error_is_retriable(AwsRequestError::Service(error)),
{
}

} // verus!
