use crate::control::{is_escaped, is_plain};
use crate::registry::Registry;
use rand::Rng;
use vstd::prelude::*;

verus! {

/// The characters of a generated session id: capital letters and digits
/// without the glyphs that are easily taken for one another.
pub const ALPHABET: &'static str = "ABCDEFGHJKLMNPQRSTUVWXYZ23456789";

/// How many characters the alphabet has.
pub const ALPHABET_LEN: usize = 32;

/// How many characters a generated session id has.
pub const SESSION_ID_LEN: usize = 6;

/// Whether `id` has the shape of a generated session id.
pub open spec fn is_session_id(id: Seq<char>) -> bool {
    &&& id.len() == SESSION_ID_LEN
    &&& forall|i: int| 0 <= i < id.len() ==> ALPHABET@.contains(#[trigger] id[i])
}

/// The id that six draws spell, each draw an index into the alphabet.
pub open spec fn spelled(draws: Seq<usize>) -> Seq<char> {
    Seq::new(draws.len(), |i: int| ALPHABET@[draws[i] as int])
}

/// Draws one number with `gen_range` from `thread_rng()`, rand's generator
/// of the calling thread. rand gives a value of the range asked for, here
/// `0..bound`, and panics on an empty range, which `requires` keeps out.
/// Which value comes is chance, so nothing else is promised. rand also
/// panics where the operating system fails to seed the generator, at a
/// thread's first draw, or to seed it anew, which is due after every 64 KiB
/// drawn and after a fork; no argument has a part in that.
#[verifier::external_body]
fn random_below(bound: usize) -> (n: usize)
    requires
        bound > 0,
    ensures
        n < bound,
{
    rand::thread_rng().gen_range(0..bound)
}

proof fn lemma_alphabet()
    ensures
        ALPHABET@.len() == ALPHABET_LEN,
        ALPHABET.is_ascii(),
        is_plain(ALPHABET@),
{
    reveal_strlit("ABCDEFGHJKLMNPQRSTUVWXYZ23456789");
}

/// A generated session id goes into a JSON string as it stands.
pub proof fn lemma_session_id_is_plain(id: Seq<char>)
    requires
        is_session_id(id),
    ensures
        is_plain(id),
{
    lemma_alphabet();
    assert forall|i: int| 0 <= i < id.len() implies !is_escaped(#[trigger] id[i]) by {
        assert(ALPHABET@.contains(id[i]));
        let j = choose|j: int| 0 <= j < ALPHABET@.len() && ALPHABET@[j] == id[i];
        assert(!is_escaped(ALPHABET@[j]));
    }
}

/// Spells the session id that `draws` stands for.
pub fn session_id_from(draws: &[usize; 6]) -> (id: String)
    requires
        forall|i: int| 0 <= i < 6 ==> draws@[i] < ALPHABET_LEN,
    ensures
        id@ == spelled(draws@),
        is_session_id(id@),
{
    proof {
        lemma_alphabet();
    }
    let mut id = String::new();
    let mut i: usize = 0;
    while i < 6
        invariant
            0 <= i <= 6,
            ALPHABET@.len() == ALPHABET_LEN,
            ALPHABET.is_ascii(),
            forall|j: int| 0 <= j < 6 ==> draws@[j] < ALPHABET_LEN,
            id@ == spelled(draws@.take(i as int)),
        decreases 6 - i,
    {
        let at = draws[i];
        let letter = ALPHABET.substring_ascii(at, at + 1);
        id.append(letter);
        assert(id@ =~= spelled(draws@.take(i + 1)));
        i = i + 1;
    }
    assert(draws@.take(6) =~= draws@);
    assert forall|j: int| 0 <= j < id@.len() implies ALPHABET@.contains(#[trigger] id@[j]) by {
        assert(id@[j] == ALPHABET@[draws@[j] as int]);
    }
    id
}

/// One candidate for a session id, drawn at random.
pub fn draw_session_id() -> (id: String)
    ensures
        is_session_id(id@),
{
    let mut draws: [usize; 6] = [0; 6];
    let mut i: usize = 0;
    while i < 6
        invariant
            0 <= i <= 6,
            forall|j: int| 0 <= j < i ==> draws@[j] < ALPHABET_LEN,
            forall|j: int| i <= j < 6 ==> draws@[j] == 0,
        decreases 6 - i,
    {
        draws[i] = random_below(ALPHABET_LEN);
        i = i + 1;
    }
    session_id_from(&draws)
}

/// `count` candidates for a session id, each drawn at random.
pub fn draw_candidates(count: usize) -> (candidates: Vec<String>)
    ensures
        candidates@.len() == count,
        forall|i: int| 0 <= i < count ==> is_session_id(#[trigger] candidates@[i]@),
{
    let mut candidates: Vec<String> = Vec::new();
    while candidates.len() < count
        invariant
            candidates@.len() <= count,
            forall|i: int| 0 <= i < candidates@.len() ==> is_session_id(#[trigger] candidates@[i]@),
        decreases count - candidates@.len(),
    {
        candidates.push(draw_session_id());
    }
    candidates
}

/// The place of the first of `candidates` that is not a live session of
/// `existing`; `None` where every one of them is live.
pub fn first_free(existing: &Registry, candidates: &Vec<String>) -> (pick: Option<usize>)
    ensures
        match pick {
            Some(k) => {
                &&& k < candidates@.len()
                &&& !existing@.contains_key(candidates@[k as int]@)
                &&& forall|j: int|
                    0 <= j < k ==> existing@.contains_key(#[trigger] candidates@[j]@)
            },
            None => forall|j: int|
                0 <= j < candidates@.len() ==> existing@.contains_key(#[trigger] candidates@[j]@),
        },
{
    let mut k: usize = 0;
    while k < candidates.len()
        invariant
            0 <= k <= candidates@.len(),
            forall|j: int| 0 <= j < k ==> existing@.contains_key(#[trigger] candidates@[j]@),
        decreases candidates@.len() - k,
    {
        if !existing.contains(candidates[k].as_str()) {
            return Some(k);
        }
        k = k + 1;
    }
    None
}

/// A session id that is not live in `existing`: `max_draws` candidates are
/// drawn, and the first of them that `first_free` finds free is the id.
/// `None` means that every candidate drawn was taken, which the first
/// cannot be while no session is live. All candidates are drawn before
/// any is looked at, so `max_draws` is best kept small; a caller that gets
/// `None` asks again.
pub fn generate_session_id(existing: &Registry, max_draws: usize) -> (id: Option<String>)
    ensures
        id matches Some(fresh) ==> is_session_id(fresh@) && !existing@.contains_key(fresh@),
        max_draws == 0 ==> id is None,
        max_draws > 0 && existing@.dom() =~= Set::<Seq<char>>::empty() ==> id is Some,
{
    let candidates = draw_candidates(max_draws);
    match first_free(existing, &candidates) {
        Some(k) => Some(candidates[k].clone()),
        None => {
            assert(max_draws > 0 ==> existing@.contains_key(candidates@[0]@));
            None
        },
    }
}

} // verus!
