//! The search heuristic: after a failed run, every candidate position whose
//! final data byte differs from the reference key is advanced to the next
//! symbol of a fixed 64-symbol alphabet (lower-case letters, upper-case
//! letters, digits, underscore, space, in that order).

use crate::engine::{target_key_bytes, target_key_spec, Outcome, KEY_LEN};
use vstd::prelude::*;

verus! {

/// A byte belongs to the candidate alphabet: `a`..`z`, `A`..`Z`, `0`..`9`,
/// `_`, or space.
pub open spec fn in_alphabet(c: u8) -> bool {
    ||| 97 <= c && c <= 122  // 'a'..'z'
    ||| 65 <= c && c <= 90  // 'A'..'Z'
    ||| 48 <= c && c <= 57  // '0'..'9'
    ||| c == 95  // '_'
    ||| c == 32  // ' '
}

/// The symbol after `c` in the alphabet order, `None` for the last symbol
/// (space) and for bytes outside the alphabet.
pub open spec fn next_symbol_spec(c: u8) -> Option<u8> {
    if c == 122 {  // 'z' -> 'A'
        Some(65)
    } else if c == 90 {  // 'Z' -> '0'
        Some(48)
    } else if c == 57 {  // '9' -> '_'
        Some(95)
    } else if c == 95 {  // '_' -> ' '
        Some(32)
    } else if (97 <= c && c < 122) || (65 <= c && c < 90) || (48 <= c && c < 57) {
        Some((c + 1) as u8)
    } else {
        None
    }
}

/// The symbol after `c` in the alphabet, executable form.
pub fn next_symbol(c: u8) -> (r: Option<u8>)
    ensures
        r == next_symbol_spec(c),
{
    if c == 122 {
        Some(65)
    } else if c == 90 {
        Some(48)
    } else if c == 57 {
        Some(95)
    } else if c == 95 {
        Some(32)
    } else if (97 <= c && c < 122) || (65 <= c && c < 90) || (48 <= c && c < 57) {
        Some(c + 1)
    } else {
        None
    }
}

/// Law: the successor of any alphabet symbol other than the last (space) is
/// itself an alphabet symbol.
pub proof fn lemma_next_symbol_in_alphabet(c: u8)
    requires
        in_alphabet(c),
        c != 32,
    ensures
        next_symbol_spec(c) is Some,
        in_alphabet(next_symbol_spec(c)->Some_0),
{
}

/// The candidate can be advanced: no position that mismatches the reference
/// key already holds the last alphabet symbol.
pub open spec fn can_advance(key0: Seq<u8>, data: Seq<u8>) -> bool {
    forall|i: int|
        (0 <= i < key0.len() && data[i] != target_key_spec()[i]) ==> key0[i] != 32
}

/// The candidate after one advance: every position whose data byte differs
/// from the reference key steps to the next alphabet symbol, every other
/// position is unchanged.
pub open spec fn advanced_key(key0: Seq<u8>, data: Seq<u8>) -> Seq<u8> {
    Seq::new(
        key0.len(),
        |i: int|
            if data[i] != target_key_spec()[i] {
                next_symbol_spec(key0[i])->Some_0
            } else {
                key0[i]
            },
    )
}

/// One application of the search heuristic.  `data` is the finished tape of
/// a failed run; its first 31 bytes are the data region that is held against
/// the reference key.  Every mismatching position of the candidate advances
/// to the next alphabet symbol; positions that match are never touched, so
/// only the mismatching ones need to hold alphabet symbols.  When some
/// mismatching position already holds the last symbol there is no next
/// symbol to step to; the candidate is then left entirely unchanged and the
/// call reports failure.
pub fn advance_candidate(key: &mut Vec<u8>, data: &Vec<u8>) -> (r: bool)
    requires
        old(key)@.len() == KEY_LEN,
        data@.len() >= KEY_LEN,
        forall|i: int|
            (0 <= i < KEY_LEN && data@[i] != target_key_spec()[i]) ==> in_alphabet(old(key)@[i]),
    ensures
        r == can_advance(old(key)@, data@),
        r ==> final(key)@ == advanced_key(old(key)@, data@),
        !r ==> final(key)@ == old(key)@,
        r ==> forall|i: int|
            (0 <= i < KEY_LEN && data@[i] != target_key_spec()[i]) ==> in_alphabet(
                final(key)@[i],
            ),
{
    let tk = target_key_bytes();
    let mut i: usize = 0;
    while i < KEY_LEN
        invariant
            i <= KEY_LEN,
            key@ == old(key)@,
            key@.len() == KEY_LEN,
            data@.len() >= KEY_LEN,
            tk@ == target_key_spec(),
            forall|j: int| 0 <= j < i ==> (data@[j] != target_key_spec()[j] ==> key@[j] != 32),
        decreases KEY_LEN - i,
    {
        if data[i] != tk[i] && key[i] == 32 {
            proof {
                assert(data@[i as int] != target_key_spec()[i as int] && old(key)@[i as int]
                    == 32);
            }
            return false;
        }
        i = i + 1;
    }
    let mut i: usize = 0;
    while i < KEY_LEN
        invariant
            i <= KEY_LEN,
            key@.len() == KEY_LEN,
            old(key)@.len() == KEY_LEN,
            data@.len() >= KEY_LEN,
            tk@ == target_key_spec(),
            forall|j: int|
                (0 <= j < KEY_LEN && data@[j] != target_key_spec()[j]) ==> in_alphabet(
                    old(key)@[j],
                ),
            can_advance(old(key)@, data@),
            forall|j: int| i <= j < KEY_LEN ==> key@[j] == old(key)@[j],
            forall|j: int| 0 <= j < i ==> key@[j] == advanced_key(old(key)@, data@)[j],
        decreases KEY_LEN - i,
    {
        if data[i] != tk[i] {
            match next_symbol(key[i]) {
                Some(n) => {
                    key[i] = n;
                },
                None => {
                    proof {
                        lemma_next_symbol_in_alphabet(old(key)@[i as int]);
                        assert(false);
                    }
                },
            }
        }
        i = i + 1;
    }
    proof {
        assert(key@ =~= advanced_key(old(key)@, data@));
        assert forall|j: int|
            (0 <= j < KEY_LEN && data@[j] != target_key_spec()[j]) implies in_alphabet(
            key@[j],
        ) by {
            lemma_next_symbol_in_alphabet(old(key)@[j]);
        }
    }
    true
}

/// What one iteration of the search decided.
#[derive(Clone, Copy, Debug, PartialEq, Eq, Structural)]
pub enum SearchStep {
    /// The run accepted: the current candidate is the answer.
    Found,
    /// The run failed and the candidate was advanced; run again.
    Advanced,
    /// The run failed but some mismatching position already holds the last
    /// alphabet symbol: the heuristic has nowhere to go.
    Stuck,
    /// The machine faulted; the candidate is left as it was.
    Faulted,
}

/// The decision step of the search loop: given the terminal outcome of a run
/// and the finished tape, either report success, advance the candidate for
/// another round, or stop.  The caller owns the loop: it builds a fresh tape
/// from the candidate, runs the machine, and calls this with the result
/// until the answer is `Found` or the search cannot continue.
pub fn respond(outcome: Outcome, data: &Vec<u8>, key: &mut Vec<u8>) -> (r: SearchStep)
    requires
        old(key)@.len() == KEY_LEN,
        data@.len() >= KEY_LEN,
        forall|i: int|
            (0 <= i < KEY_LEN && data@[i] != target_key_spec()[i]) ==> in_alphabet(old(key)@[i]),
    ensures
        final(key)@.len() == KEY_LEN,
        outcome == Outcome::Accept ==> r == SearchStep::Found && final(key)@ == old(key)@,
        outcome == Outcome::Fault ==> r == SearchStep::Faulted && final(key)@ == old(key)@,
        (outcome == Outcome::Fail && can_advance(old(key)@, data@)) ==> r == SearchStep::Advanced
            && final(key)@ == advanced_key(old(key)@, data@),
        (outcome == Outcome::Fail && !can_advance(old(key)@, data@)) ==> r == SearchStep::Stuck
            && final(key)@ == old(key)@,
    {
    match outcome {
        Outcome::Accept => SearchStep::Found,
        Outcome::Fault => SearchStep::Faulted,
        Outcome::Fail => {
            if advance_candidate(key, data) {
                SearchStep::Advanced
            } else {
                SearchStep::Stuck
            }
        },
    }
}

} // verus!
