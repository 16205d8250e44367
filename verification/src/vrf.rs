//! Randomness adapter: a 320-byte randomness buffer per round, turned
//! into ten match outcomes of equal probability.

use vstd::prelude::*;

use crate::errors::SportsbookError;
use crate::round::RoundAccounting;

verus! {

/// Outcome drawn from a randomness chunk: the first eight bytes read as a
/// little-endian integer, reduced to 1, 2 or 3 with equal probability.
pub open spec fn spec_outcome_from_randomness(s: Seq<u8>) -> int {
    vstd::bytes::spec_u64_from_le_bytes(s.subrange(0, 8)) as int % 3 + 1
}

/// Outcome of match `i` drawn from its 32-byte chunk of the buffer.
pub open spec fn spec_match_result_from_randomness(s: Seq<u8>, i: int) -> int {
    spec_outcome_from_randomness(s.subrange(32 * i, 32 * i + 32))
}

/// Map a randomness chunk to a match outcome code in 1..=3.
pub fn outcome_from_randomness(randomness: &[u8]) -> (r: u8)
    requires
        randomness@.len() >= 8,
    ensures
        r == spec_outcome_from_randomness(randomness@),
        1 <= r <= 3,
{
    let first = vstd::slice::slice_subrange(randomness, 0, 8);
    let value = vstd::bytes::u64_from_le_bytes(first);
    ((value % 3) + 1) as u8
}

/// Extract the ten match outcomes from a 320-byte randomness buffer, one
/// 32-byte chunk per match.
pub fn extract_match_results(randomness: &[u8; 320]) -> (r: [u8; 10])
    ensures
        forall|i: int|
            0 <= i < 10 ==> #[trigger] r@[i] == spec_match_result_from_randomness(randomness@, i),
        forall|i: int| 0 <= i < 10 ==> 1 <= #[trigger] r@[i] <= 3,
{
    let mut results: [u8; 10] = [0u8; 10];
    let randomness_slice: &[u8] = randomness.as_slice();
    let mut i: usize = 0;
    while i < 10
        invariant
            i <= 10,
            randomness_slice@ == randomness@,
            randomness@.len() == 320,
            forall|j: int|
                0 <= j < i ==> #[trigger] results@[j] == spec_match_result_from_randomness(
                    randomness@,
                    j,
                ),
            forall|j: int| 0 <= j < i ==> 1 <= #[trigger] results@[j] <= 3,
        decreases 10 - i,
    {
        let offset = i * 32;
        let chunk = vstd::slice::slice_subrange(randomness_slice, offset, offset + 32);
        results[i] = outcome_from_randomness(chunk);
        i = i + 1;
    }
    results
}

/// Record of one round's randomness request and its fulfilment.
#[derive(Clone, Copy, Debug)]
pub struct VrfRequest {
    /// Round this request is for.
    pub round_id: u64,
    /// Identity of the randomness oracle account.
    pub vrf_account: u64,
    /// Timestamp the request was made.
    pub request_time: i64,
    /// Whether the request has been fulfilled.
    pub fulfilled: bool,
    /// Timestamp of fulfilment; zero before.
    pub fulfillment_time: i64,
    /// The 320-byte randomness buffer, 32 bytes per match.
    pub randomness: [u8; 320],
    /// The ten outcomes derived from the randomness.
    pub match_results: [u8; 10],
}

/// Register a randomness request for a seeded, unsettled round.
pub fn request_vrf_randomness(round: &RoundAccounting, round_id: u64, vrf_account: u64, now: i64) -> (r:
    Result<VrfRequest, SportsbookError>)
    ensures
        match r {
            Ok(req) => round.seeded && !round.settled && req.round_id == round_id
                && req.vrf_account == vrf_account && req.request_time == now && !req.fulfilled
                && req.fulfillment_time == 0 && (forall|i: int|
                0 <= i < 320 ==> #[trigger] req.randomness@[i] == 0) && (forall|i: int|
                0 <= i < 10 ==> #[trigger] req.match_results@[i] == 0),
            Err(e) => (e == SportsbookError::RoundNotSeeded <==> !round.seeded) && (e
                == SportsbookError::RoundAlreadySettled <==> round.seeded && round.settled) && (e
                == SportsbookError::RoundNotSeeded || e == SportsbookError::RoundAlreadySettled),
        },
{
    if !round.seeded {
        return Err(SportsbookError::RoundNotSeeded);
    }
    if round.settled {
        return Err(SportsbookError::RoundAlreadySettled);
    }
    Ok(
        VrfRequest {
            round_id,
            vrf_account,
            request_time: now,
            fulfilled: false,
            fulfillment_time: 0,
            randomness: [0u8; 320],
            match_results: [0u8; 10],
        },
    )
}

/// The placeholder randomness byte for a round: derived from the round id
/// alone until a real oracle supplies the buffer.
pub open spec fn spec_placeholder_randomness(round_id: u64, i: int) -> int {
    (round_id + i) % 256
}

/// Fulfil a randomness request for a seeded, unsettled round.
///
/// Fills the buffer with placeholder randomness derived from the round id
/// (a real oracle result would replace it), derives the ten outcomes, and
/// marks the request fulfilled. Fails idempotently when the request was
/// already fulfilled.
pub fn fulfill_vrf_request(vrf_request: &mut VrfRequest, round: &RoundAccounting, now: i64) -> (r: Result<
    (),
    SportsbookError,
>)
    ensures
        match r {
            Ok(_) => {
                &&& round.seeded && !round.settled && !old(vrf_request).fulfilled
                &&& final(vrf_request).fulfilled
                &&& final(vrf_request).fulfillment_time == now
                &&& final(vrf_request).round_id == old(vrf_request).round_id
                &&& final(vrf_request).vrf_account == old(vrf_request).vrf_account
                &&& final(vrf_request).request_time == old(vrf_request).request_time
                &&& forall|i: int|
                    0 <= i < 320 ==> #[trigger] final(vrf_request).randomness@[i]
                        == spec_placeholder_randomness(old(vrf_request).round_id, i)
                &&& forall|i: int|
                    0 <= i < 10 ==> #[trigger] final(vrf_request).match_results@[i]
                        == spec_match_result_from_randomness(final(vrf_request).randomness@, i)
                &&& forall|i: int|
                    0 <= i < 10 ==> 1 <= #[trigger] final(vrf_request).match_results@[i] <= 3
            },
            Err(e) => {
                &&& *final(vrf_request) == *old(vrf_request)
                &&& (e == SportsbookError::RoundNotSeeded <==> !round.seeded)
                &&& (e == SportsbookError::RoundAlreadySettled <==> round.seeded && (round.settled
                    || old(vrf_request).fulfilled))
                &&& (e == SportsbookError::RoundNotSeeded || e
                    == SportsbookError::RoundAlreadySettled)
            },
        },
{
    if !round.seeded {
        return Err(SportsbookError::RoundNotSeeded);
    }
    if round.settled || vrf_request.fulfilled {
        return Err(SportsbookError::RoundAlreadySettled);
    }
    let round_id = vrf_request.round_id;
    let base: u64 = round_id % 256;
    let mut test_randomness: [u8; 320] = [0u8; 320];
    let mut i: usize = 0;
    while i < 320
        invariant
            i <= 320,
            base == round_id as int % 256,
            forall|j: int|
                0 <= j < i ==> #[trigger] test_randomness@[j] == spec_placeholder_randomness(
                    round_id,
                    j,
                ),
        decreases 320 - i,
    {
        let byte: u64 = (base + (i as u64)) % 256;
        proof {
            vstd::arithmetic::div_mod::lemma_add_mod_noop(round_id as int, i as int, 256);
            vstd::arithmetic::div_mod::lemma_mod_twice(i as int, 256);
        }
        test_randomness[i] = byte as u8;
        i = i + 1;
    }
    vrf_request.randomness = test_randomness;
    let match_results = extract_match_results(&vrf_request.randomness);
    vrf_request.match_results = match_results;
    vrf_request.fulfilled = true;
    vrf_request.fulfillment_time = now;
    Ok(())
}

} // verus!
