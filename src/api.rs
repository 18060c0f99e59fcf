use vstd::prelude::*;

verus! {

/// Request body of a nonce submission to a pool or wallet.
#[derive(Clone, Debug)]
pub struct SubmitNonceRequest<'a> {
    pub request_type: &'a str,
    pub account_id: u64,
    pub nonce: u64,
    pub secret_phrase: Option<&'a String>,
    pub blockheight: u64,
    pub deadline: Option<u64>,
}

/// Request body asking for the current mining info.
#[derive(Clone, Debug)]
pub struct GetMiningInfoRequest<'a> {
    pub request_type: &'a str,
}

/// Outcome of a submission that reached the verifier: whether the deadline
/// was recognised as the current best.
#[derive(Clone, Copy, Debug)]
pub struct SubmitNonceResponse {
    pub verify_result: bool,
}

/// Arguments of the chain call that submits a nonce.
#[derive(Clone, Copy, Debug)]
pub struct MiningArgs {
    pub account_id: u64,
    pub height: u64,
    pub sig: [u8; 32],
    pub nonce: u64,
    pub deadline: u64,
}

/// What miners need to know about the chain's current round.
#[derive(Clone, Copy, Debug)]
pub struct MiningInfoResponse {
    pub generation_signature: [u8; 32],
    pub base_target: u64,
    pub height: u64,
    pub target_deadline: u64,
}

/// The deadline target used when the chain states none: any deadline.
pub fn default_target_deadline() -> (r: u64)
    ensures
        r == u64::MAX,
{
    u64::MAX
}

/// A structured error answered by a pool.
#[derive(Clone, Debug)]
pub struct PoolError {
    pub code: i32,
    pub message: String,
}

/// Why fetching from or submitting to the remote endpoint failed. Every
/// variant is a transport or protocol failure, retried by the dispatcher.
#[derive(Debug)]
pub enum FetchError {
    /// The HTTP transport failed.
    Http(reqwest::Error),
    /// The endpoint answered with a structured error.
    Pool(PoolError),
    /// The chain client failed; its message.
    Substrate(String),
}

#[verifier::external_type_specification]
#[verifier::external_body]
pub struct ExReqwestError(reqwest::Error);

impl From<PoolError> for FetchError {
    fn from(err: PoolError) -> (r: FetchError) {
        FetchError::Pool(err)
    }
}

impl vstd::std_specs::convert::FromSpecImpl<PoolError> for FetchError {
    open spec fn obeys_from_spec() -> bool {
        true
    }

    open spec fn from_spec(err: PoolError) -> FetchError {
        FetchError::Pool(err)
    }
}

impl From<reqwest::Error> for FetchError {
    fn from(err: reqwest::Error) -> (r: FetchError) {
        FetchError::Http(err)
    }
}

impl vstd::std_specs::convert::FromSpecImpl<reqwest::Error> for FetchError {
    open spec fn obeys_from_spec() -> bool {
        true
    }

    open spec fn from_spec(err: reqwest::Error) -> FetchError {
        FetchError::Http(err)
    }
}

/// The text that `String::from_utf8_lossy` makes of a byte string.
pub uninterp spec fn utf8_lossy_of(b: Seq<u8>) -> Seq<char>;

/// Relies on `String::from_utf8_lossy`: its result depends on the bytes
/// alone, and no bytes give no text.
#[verifier::external_body]
fn utf8_lossy(b: &[u8]) -> (r: String)
    ensures
        r@ == utf8_lossy_of(b@),
        b@.len() == 0 ==> r@.len() == 0,
{
    String::from_utf8_lossy(b).to_string()
}

/// Interprets a JSON answer: `parsed` is the body read as the expected value,
/// `pool_error` the body read as a pool's error wrapper. The value wins; else
/// the pool's error; else an error with code 0 holding the body as text.
pub fn parse_json_result<T>(parsed: Option<T>, pool_error: Option<PoolError>, body: &[u8]) -> (r:
    Result<T, PoolError>)
    ensures
        parsed is Some ==> r == Ok::<T, PoolError>(parsed->0),
        parsed is None && pool_error is Some ==> r == Err::<T, PoolError>(pool_error->0),
        parsed is None && pool_error is None ==> (r is Err && r->Err_0.code == 0
            && r->Err_0.message@ == utf8_lossy_of(body@)),
{
    match parsed {
        Some(x) => Ok(x),
        None => match pool_error {
            Some(e) => Err(e),
            None => Err(PoolError { code: 0, message: utf8_lossy(body) }),
        },
    }
}

} // verus!
