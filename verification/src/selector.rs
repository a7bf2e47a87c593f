//! Choosing which comic a run targets: the latest one, or a bounded,
//! deterministic-when-seeded random pick that never lands on an excluded
//! identifier.

use vstd::prelude::*;
use crate::random::SeededRng;
use crate::random::chacha_draw;

verus! {

/// How the caller asks for a comic.
#[derive(Clone, Copy, Debug, PartialEq, Eq, Structural)]
pub enum SelectionRequest {
    /// The highest-numbered comic currently published.
    Latest,
    /// A pseudo-random comic, drawn deterministically from `seed` within the
    /// bound that the site reports at selection time.
    Random { seed: u64 },
}

/// The request that a pair of mutually exclusive command-line flags names:
/// `latest` wins when set, then `random` (with the given seed); neither flag
/// is a usage error, reported as `None`.
pub fn request_from_flags(latest: bool, random: bool, seed: u64) -> (r: Option<SelectionRequest>)
    ensures
        latest ==> r == Some(SelectionRequest::Latest),
        !latest && random ==> r == Some(SelectionRequest::Random { seed }),
        !latest && !random ==> r is None,
{
    if latest {
        Some(SelectionRequest::Latest)
    } else if random {
        Some(SelectionRequest::Random { seed })
    } else {
        None
    }
}

/// An identifier may be chosen by random selection only if it names a comic:
/// `0` never does, and `404` is the known gap in the site's numbering.
pub open spec fn valid_comic_id(v: u32) -> bool {
    v != 0 && v != 404
}

/// How many draws one random selection may make before giving up.  Each
/// excluded draw advances the generator, so consecutive draws are
/// independent; this bound only guarantees termination.
pub const MAX_DRAWS: u64 = 64;

/// The first valid identifier among draws `i, i + 1, ...` of the stream for
/// `(seed, max)`, looking at most `fuel` draws ahead.
pub open spec fn first_valid_draw(seed: u64, max: u32, i: nat, fuel: nat) -> Option<u32>
    decreases fuel,
{
    if fuel == 0 {
        None
    } else if valid_comic_id(chacha_draw(seed, max, i)) {
        Some(chacha_draw(seed, max, i))
    } else {
        first_valid_draw(seed, max, i + 1, (fuel - 1) as nat)
    }
}

/// The identifier that random selection yields for a seed and a bound: the
/// first valid draw of the stream, within the `MAX_DRAWS` termination bound.
pub open spec fn random_pick(seed: u64, max: u32) -> Option<u32> {
    first_valid_draw(seed, max, 0, MAX_DRAWS as nat)
}

proof fn lemma_first_valid_draw_valid(seed: u64, max: u32, i: nat, fuel: nat)
    ensures
        first_valid_draw(seed, max, i, fuel) matches Some(v) ==> valid_comic_id(v),
    decreases fuel,
{
    if fuel > 0 && !valid_comic_id(chacha_draw(seed, max, i)) {
        lemma_first_valid_draw_valid(seed, max, i + 1, (fuel - 1) as nat);
    }
}

/// Law: whatever the seed and however large the bound, random selection
/// never yields the identifier `0` nor the known-missing identifier `404`.
pub proof fn lemma_pick_never_excluded(seed: u64, max: u32, v: u32)
    requires
        random_pick(seed, max) == Some(v),
    ensures
        v != 0,
        v != 404,
{
    lemma_first_valid_draw_valid(seed, max, 0, MAX_DRAWS as nat);
}

/// Law: for a fixed seed and a fixed bound, two independent random
/// selections yield the identical result.
pub proof fn lemma_selection_deterministic(seed: u64, max: u32, a: Option<u32>, b: Option<u32>)
    requires
        a == random_pick(seed, max),
        b == random_pick(seed, max),
    ensures
        a == b,
{
}

proof fn lemma_first_valid_draw_index(seed: u64, max: u32, i: nat, fuel: nat, v: u32)
    requires
        first_valid_draw(seed, max, i, fuel) == Some(v),
    ensures
        exists|k: nat|
            #![trigger chacha_draw(seed, max, k)]
            i <= k < i + fuel && chacha_draw(seed, max, k) == v && (forall|j: nat|
                i <= j < k ==> !valid_comic_id(chacha_draw(seed, max, j))),
    decreases fuel,
{
    if valid_comic_id(chacha_draw(seed, max, i)) {
        assert(i <= i < i + fuel && chacha_draw(seed, max, i) == v && (forall|j: nat|
            i <= j < i ==> !valid_comic_id(chacha_draw(seed, max, j))));
    } else {
        lemma_first_valid_draw_index(seed, max, i + 1, (fuel - 1) as nat, v);
        let k = choose|k: nat|
            #![trigger chacha_draw(seed, max, k)]
            i + 1 <= k < i + 1 + (fuel - 1) && chacha_draw(seed, max, k) == v && (forall|j: nat|
                i + 1 <= j < k ==> !valid_comic_id(chacha_draw(seed, max, j)));
        assert(i <= k < i + fuel && chacha_draw(seed, max, k) == v && (forall|j: nat|
            i <= j < k ==> !valid_comic_id(chacha_draw(seed, max, j))));
    }
}

/// Law: a selected identifier is the earliest valid draw of the stream:
/// some draw yields it, and every draw before that one was excluded — the
/// retry strategy advances past excluded draws and changes nothing else.
pub proof fn lemma_pick_is_first_valid_draw(seed: u64, max: u32, v: u32)
    requires
        random_pick(seed, max) == Some(v),
    ensures
        exists|k: nat|
            #![trigger chacha_draw(seed, max, k)]
            k < MAX_DRAWS && chacha_draw(seed, max, k) == v && (forall|j: nat|
                j < k ==> !valid_comic_id(chacha_draw(seed, max, j))),
{
    lemma_first_valid_draw_index(seed, max, 0, MAX_DRAWS as nat, v);
}

/// Law: when the very first draw is already valid, the retry strategy plays
/// no part and the selection is exactly that draw.
pub proof fn lemma_first_draw_selected(seed: u64, max: u32)
    requires
        valid_comic_id(chacha_draw(seed, max, 0)),
    ensures
        random_pick(seed, max) == Some(chacha_draw(seed, max, 0)),
{
}

/// Draws candidates from one fresh generator, advancing it on every draw,
/// until a valid identifier comes up; `None` only if `MAX_DRAWS` consecutive
/// draws were all excluded.
pub fn pick_random_id(seed: u64, max: u32) -> (r: Option<u32>)
    requires
        max >= 1,
    ensures
        r == random_pick(seed, max),
        r matches Some(v) ==> 1 <= v <= max && valid_comic_id(v),
{
    let mut g = SeededRng::new(seed, max);
    let mut attempts: u64 = 0;
    while attempts < MAX_DRAWS
        invariant
            g.bound() == max,
            g.seed() == seed,
            max >= 1,
            attempts <= MAX_DRAWS,
            g.drawn() == attempts,
            random_pick(seed, max) == first_valid_draw(
                seed,
                max,
                attempts as nat,
                (MAX_DRAWS - attempts) as nat,
            ),
        decreases MAX_DRAWS - attempts,
    {
        let candidate = g.draw();
        if candidate != 0 && candidate != 404 {
            return Some(candidate);
        }
        attempts = attempts + 1;
    }
    None
}

/// What remains to be done once the latest record is known.
#[derive(Clone, Copy, Debug, PartialEq, Eq, Structural)]
pub enum SelectionStep {
    /// The latest record itself answers the request.
    UseLatest,
    /// The record with this identifier answers the request; fetch it.
    FetchId(u32),
}

/// The step after the latest record is known: a `Latest` request is answered
/// by that record itself; a `Random` request draws within `[1, latest_id]`.
/// `None` only on the exhausted-draws case of `pick_random_id`.
pub fn step_after_latest(request: &SelectionRequest, latest_id: u32) -> (r: Option<SelectionStep>)
    requires
        latest_id >= 1,
    ensures
        request is Latest ==> r == Some(SelectionStep::UseLatest),
        request matches SelectionRequest::Random { seed } ==> r == match random_pick(
            *seed,
            latest_id,
        ) {
            Some(v) => Some(SelectionStep::FetchId(v)),
            None => None::<SelectionStep>,
        },
        r matches Some(SelectionStep::FetchId(v)) ==> 1 <= v <= latest_id && valid_comic_id(v),
{
    match request {
        SelectionRequest::Latest => Some(SelectionStep::UseLatest),
        SelectionRequest::Random { seed } => match pick_random_id(*seed, latest_id) {
            Some(v) => Some(SelectionStep::FetchId(v)),
            None => None,
        },
    }
}

} // verus!
