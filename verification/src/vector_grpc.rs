//! The Vector gRPC sink: its configuration, the settings it is built with,
//! and how the answers to a batch of pushed requests make one outcome.

use vstd::prelude::*;
use crate::settings::{
    BatchConfig, BatchSettings, DataType, TowerRequestConfig, spec_empty_request,
    spec_parse_batch,
};

verus! {

/// Configuration of the Vector gRPC sink.
#[derive(Clone, Debug)]
pub struct VectorSinkConfig {
    pub address: String,
    pub batch: BatchConfig,
    pub request: TowerRequestConfig,
}

/// A configuration that sends to `address` and leaves the batch and request
/// limits at their defaults.
pub fn default_config(address: &str) -> (res: VectorSinkConfig)
    ensures
        res.address@ == address@,
        res.batch == (BatchConfig { max_bytes: None, max_events: None, timeout_secs: None }),
        res.request == spec_empty_request(),
{
    VectorSinkConfig {
        address: address.to_owned(),
        batch: BatchConfig::default(),
        request: TowerRequestConfig::default(),
    }
}

/// The batch limits the sink starts from before the user's configuration is
/// applied: 1300 bytes, 1000 events, one second.
pub open spec fn grpc_batch_defaults() -> BatchSettings {
    BatchSettings { bytes: 1300, events: 1000, timeout_secs: 1 }
}

/// A gRPC endpoint as `tonic` holds it: the address and connection options.
#[verifier::external_type_specification]
#[verifier::external_body]
pub struct ExEndpoint(tonic::transport::Endpoint);

/// The endpoint that `tonic::transport::Endpoint::from_shared` makes of an
/// address, or none where the address is not a URI.
pub uninterp spec fn endpoint_for_address(address: Seq<char>) -> Option<tonic::transport::Endpoint>;

/// An address that `tonic` reads as a URI.
pub open spec fn address_is_uri(address: Seq<char>) -> bool {
    endpoint_for_address(address) is Some
}

/// Calls `tonic::transport::Endpoint::from_shared` on a copy of the address
/// and drops the error. Trusted: the endpoint is fixed by the address alone
/// (the URI it parses, every other option at its default); what it holds is
/// left to the name `endpoint_for_address`.
#[verifier::external_body]
fn endpoint_from_shared(address: &String) -> (res: Option<tonic::transport::Endpoint>)
    ensures
        res == endpoint_for_address(address@),
{
    tonic::transport::Endpoint::from_shared(address.clone()).ok()
}

/// The sink's address is not a URI.
#[derive(Clone, Debug, PartialEq, Eq)]
pub struct InvalidAddress {
    pub address: String,
}

/// What the gRPC sink is built with.
#[derive(Clone, Copy, Debug)]
pub struct VectorSinkSettings {
    pub batch: BatchSettings,
    /// How many requests may be in flight at once.
    pub concurrency: usize,
}

impl VectorSinkConfig {
    /// Reads the address as the endpoint to send to; an address that is not a
    /// URI is refused.
    pub fn endpoint(&self) -> (res: Result<tonic::transport::Endpoint, InvalidAddress>)
        ensures
            res is Ok <==> address_is_uri(self.address@),
            res matches Ok(endpoint) ==> Some(endpoint) == endpoint_for_address(self.address@),
            res matches Err(e) ==> e.address@ == self.address@,
    {
        match endpoint_from_shared(&self.address) {
            Some(endpoint) => Ok(endpoint),
            None => Err(InvalidAddress { address: self.address.clone() }),
        }
    }

    /// Settles the batch limits and the request concurrency of the sink. The
    /// sink has no default concurrency: the configuration must set one.
    pub fn build_settings(&self) -> (res: VectorSinkSettings)
        requires
            self.request.concurrency is Some,
        ensures
            res.batch == spec_parse_batch(grpc_batch_defaults(), self.batch),
            res.concurrency == self.request.concurrency->0,
    {
        let batch = BatchSettings::new(1300, 1000, 1).parse_config(self.batch);
        let request = self.request.unwrap_with(&TowerRequestConfig::default());
        let concurrency = match request.concurrency {
            Some(c) => c,
            None => 0,
        };
        VectorSinkSettings { batch, concurrency }
    }

    /// The sink takes events of every kind.
    pub fn input_type(&self) -> (res: DataType)
        ensures
            res == DataType::Any,
    {
        DataType::Any
    }

    /// The name under which the sink is registered.
    pub fn sink_type(&self) -> (res: &'static str)
        ensures
            res@ == "vector_grpc"@,
    {
        "vector_grpc"
    }
}

/// The outcome of a batch of requests, given the outcome of each in the
/// order they were sent: success when all succeeded, else the first failure.
pub open spec fn first_failure(results: Seq<Result<(), String>>) -> Result<(), String>
    decreases results.len(),
{
    if results.len() == 0 {
        Ok(())
    } else {
        match results[0] {
            Err(e) => Err(e),
            Ok(_) => first_failure(results.drop_first()),
        }
    }
}

/// `first_failure` succeeds exactly when every outcome succeeded, and a failure
/// it gives is the first failed outcome.
pub proof fn lemma_first_failure_meaning(results: Seq<Result<(), String>>)
    ensures
        first_failure(results) is Ok <==> forall|i: int| 0 <= i < results.len() ==> #[trigger] results[i] is Ok,
        first_failure(results) is Err ==> exists|k: int|
            0 <= k < results.len() && results[k] == first_failure(results) && forall|i: int|
                0 <= i < k ==> #[trigger] results[i] is Ok,
    decreases results.len(),
{
    if results.len() > 0 {
        let rest = results.drop_first();
        lemma_first_failure_meaning(rest);
        assert forall|i: int| 0 < i < results.len() implies results[i] == rest[i - 1] by {}
        if results[0] is Ok {
            if first_failure(results) is Ok {
                assert forall|i: int| 0 <= i < results.len() implies #[trigger] results[i] is Ok by {
                    if i > 0 {
                        assert(rest[i - 1] is Ok);
                    }
                }
            } else {
                assert(results[0] is Ok);
                let k = choose|k: int|
                    0 <= k < rest.len() && rest[k] == first_failure(rest) && forall|i: int|
                        0 <= i < k ==> #[trigger] rest[i] is Ok;
                assert(results[k + 1] == first_failure(results));
                assert forall|i: int| 0 <= i < k + 1 implies #[trigger] results[i] is Ok by {
                    if i > 0 {
                        assert(rest[i - 1] is Ok);
                    }
                }
            }
        } else {
            assert(!(results[0] is Ok));
        }
    }
}

/// The outcome of two batches sent one after the other is the outcome of the
/// first if it failed, else the outcome of the second.
pub proof fn lemma_first_failure_append(a: Seq<Result<(), String>>, b: Seq<Result<(), String>>)
    ensures
        first_failure(a + b) == (if first_failure(a) is Ok {
            first_failure(b)
        } else {
            first_failure(a)
        }),
    decreases a.len(),
{
    if a.len() == 0 {
        assert(a + b =~= b);
    } else {
        assert((a + b)[0] == a[0]);
        assert((a + b).drop_first() =~= a.drop_first() + b);
        lemma_first_failure_append(a.drop_first(), b);
    }
}

/// Combines the outcomes of the requests of one batch, in the order they were
/// sent, into the outcome of the batch.
pub fn collect_responses(results: &Vec<Result<(), String>>) -> (res: Result<(), String>)
    ensures
        res == first_failure(results@),
        res is Ok <==> forall|i: int| 0 <= i < results@.len() ==> #[trigger] results@[i] is Ok,
{
    let mut i: usize = 0;
    assert(results@.skip(0) =~= results@);
    while i < results.len()
        invariant
            0 <= i <= results@.len(),
            first_failure(results@) == first_failure(results@.skip(i as int)),
        decreases results@.len() - i,
    {
        let ghost rest = results@.skip(i as int);
        assert(rest[0] == results@[i as int]);
        assert(rest.drop_first() =~= results@.skip(i + 1));
        match &results[i] {
            Err(e) => {
                let failure = e.clone();
                proof {
                    lemma_first_failure_meaning(results@);
                }
                return Err(failure);
            },
            Ok(_) => {},
        }
        i = i + 1;
    }
    assert(results@.skip(i as int).len() == 0);
    proof {
        lemma_first_failure_meaning(results@);
    }
    Ok(())
}

/// The errors of the gRPC sink's requests. There are none yet: no value of
/// this type can be made.
#[derive(Debug)]
pub struct Error(pub core::convert::Infallible);

/// The retry policy of the gRPC sink.
#[derive(Clone, Copy, Debug)]
pub struct VectorGrpcRetryLogic;

impl VectorGrpcRetryLogic {
    /// Every failure is worth another try.
    pub fn is_retriable_error(&self, _error: &Error) -> (res: bool)
        ensures
            res,
    {
        true
    }
}

} // verus!
