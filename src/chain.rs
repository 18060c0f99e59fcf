use crate::api::{MiningArgs, MiningInfoResponse};
use crate::submission::SubmissionParameters;
use vstd::prelude::*;
use vstd::utf8::encode_utf8;

verus! {

/// The base target used when the chain has recorded no difficulty yet.
pub const DEFAULT_BASE_TARGET: u64 = 488671834567;

/// The chain's record of the best deadline of a round.
#[derive(Clone, Copy, Debug)]
pub struct LastMiningInfo {
    pub best_dl: u64,
    pub block: u64,
}

/// The runtime of the proof-of-capacity chain this client talks to.
#[derive(Clone, Copy, Debug)]
pub struct PocRuntime;

/// Whether to send additional data for proxies.
#[derive(Clone, Copy, Debug)]
pub enum ProxyDetails {
    /// Send additional data like capacity, miner name, ...
    Enabled,
    /// Don't send any additional data.
    Disabled,
}

/// Mining info from what was read off the chain: the block hash serves as
/// generation signature; missing records fall back to the default base
/// target and to a target deadline that admits any deadline.
pub fn mining_info_from_chain(
    block_hash: [u8; 32],
    height: u64,
    last_base_target: Option<u64>,
    last_mining: Option<LastMiningInfo>,
) -> (r: MiningInfoResponse)
    ensures
        r.generation_signature == block_hash,
        r.height == height,
        r.base_target == match last_base_target {
            Some(b) => b,
            None => DEFAULT_BASE_TARGET,
        },
        r.target_deadline == match last_mining {
            Some(i) => i.best_dl,
            None => u64::MAX,
        },
{
    let base_target = match last_base_target {
        Some(b) => b,
        None => DEFAULT_BASE_TARGET,
    };
    let target_deadline = match last_mining {
        Some(i) => i.best_dl,
        None => crate::api::default_target_deadline(),
    };
    MiningInfoResponse { generation_signature: block_hash, base_target, height, target_deadline }
}

/// Rounds span three blocks: heights 1 to 3 are round 0, 4 to 6 round 1, and
/// so on; height 0 stands before round 0.
pub open spec fn round_of(height: u64) -> int {
    (height - 1) / 3
}

/// Whether the two heights fall in the same round.
pub fn same_round(a: u64, b: u64) -> (r: bool)
    ensures
        r == (round_of(a) == round_of(b)),
{
    if a == 0 || b == 0 {
        a == b
    } else {
        (a - 1) / 3 == (b - 1) / 3
    }
}

/// The chain already holds a deadline no worse than the candidate's, in the
/// candidate's round: submitting it cannot succeed.
pub open spec fn chain_has_better(last: Option<LastMiningInfo>, sub: SubmissionParameters) -> bool {
    match last {
        None => false,
        Some(i) => i.best_dl <= sub.deadline && round_of(i.block) == round_of(sub.height),
    }
}

pub fn chain_has_better_deadline(last: Option<LastMiningInfo>, sub: &SubmissionParameters) -> (r:
    bool)
    ensures
        r == chain_has_better(last, *sub),
{
    match last {
        None => false,
        Some(i) => i.best_dl <= sub.deadline && same_round(i.block, sub.height),
    }
}

/// The arguments of the chain call that submits the candidate.
pub fn mining_args(sub: &SubmissionParameters) -> (r: MiningArgs)
    ensures
        r.account_id == sub.account_id,
        r.height == sub.height,
        r.sig == sub.gen_sig,
        r.nonce == sub.nonce,
        r.deadline == sub.deadline,
{
    MiningArgs {
        account_id: sub.account_id,
        height: sub.height,
        sig: sub.gen_sig,
        nonce: sub.nonce,
        deadline: sub.deadline,
    }
}

/// The upper-case hexadecimal digit of `d`, below 16.
pub open spec fn hex_digit(d: u8) -> char {
    if d < 10 {
        ((d + 48) as u8) as char
    } else {
        ((d + 55) as u8) as char
    }
}

/// Bytes that `application/x-www-form-urlencoded` keeps as they are.
pub open spec fn form_unchanged(b: u8) -> bool {
    b == 42 || b == 45 || b == 46 || (48 <= b <= 57) || (65 <= b <= 90) || b == 95 || (97 <= b
        <= 122)
}

/// One byte in `application/x-www-form-urlencoded`: kept, a space as `+`,
/// anything else as `%` and two upper-case hex digits.
pub open spec fn form_byte(b: u8) -> Seq<char> {
    if form_unchanged(b) {
        seq![b as char]
    } else if b == 32 {
        seq!['+']
    } else {
        seq!['%', hex_digit(b / 16), hex_digit(b % 16)]
    }
}

/// A byte string in `application/x-www-form-urlencoded`.
pub open spec fn form_urlencoded(b: Seq<u8>) -> Seq<char>
    decreases b.len(),
{
    if b.len() == 0 {
        Seq::empty()
    } else {
        form_byte(b[0]) + form_urlencoded(b.drop_first())
    }
}

/// Relies on `url::form_urlencoded::byte_serialize`, which encodes each byte
/// as `form_byte` says.
#[verifier::external_body]
fn byte_serialize(b: &[u8]) -> (r: String)
    ensures
        r@ == form_urlencoded(b@),
{
    url::form_urlencoded::byte_serialize(b).collect()
}

/// A secret phrase made safe to send in a form-encoded request.
pub fn encode_secret_phrase(phrase: &str) -> (r: String)
    ensures
        r@ == form_urlencoded(encode_utf8(phrase@)),
{
    byte_serialize(phrase.as_bytes())
}

} // verus!
