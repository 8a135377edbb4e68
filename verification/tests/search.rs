use tapevm::driver::{advance_candidate, next_symbol, respond, SearchStep};
use tapevm::engine::{target_key_bytes, InputTable, Outcome};

/// A tape in the layout the machine expects: position 0 is the entry point,
/// and the candidate bytes end up in the data region (the first 31 bytes).
/// The program pushes every candidate byte, then checks them back to front
/// against the secret key: read-secret into r1, pop into r2, compare, and
/// jump over a halt-fail when they agree.  Execution that survives all 31
/// checks runs off the program onto a terminator byte and accepts.
fn build_tape(key: &[u8]) -> Vec<u8> {
    let mut t = Vec::new();
    for i in 0..31 {
        t.push(2);
        t.push(key[i]);
    }
    for _ in 0..31 {
        t.extend_from_slice(&[1, 1, 0, 2, 5, 1, 2, 7, 3, 4]);
    }
    t.push(0xFF);
    t
}

#[test]
fn next_symbol_follows_alphabet_order() {
    assert_eq!(next_symbol(b'a'), Some(b'b'));
    assert_eq!(next_symbol(b'y'), Some(b'z'));
    assert_eq!(next_symbol(b'z'), Some(b'A'));
    assert_eq!(next_symbol(b'Z'), Some(b'0'));
    assert_eq!(next_symbol(b'0'), Some(b'1'));
    assert_eq!(next_symbol(b'9'), Some(b'_'));
    assert_eq!(next_symbol(b'_'), Some(b' '));
    assert_eq!(next_symbol(b' '), None);
    assert_eq!(next_symbol(b'{'), None);
}

#[test]
fn scenario_single_mismatch_advances_one_position() {
    // The final data region differs from the target key at index 3 only:
    // after one failed run the candidate advances there and nowhere else.
    let mut data = target_key_bytes();
    data[3] ^= 0xFF;
    let mut key = vec![b'a'; 31];
    assert!(advance_candidate(&mut key, &data));
    for i in 0..31 {
        if i == 3 {
            assert_eq!(key[i], b'b');
        } else {
            assert_eq!(key[i], b'a');
        }
    }
}

#[test]
fn advance_stops_at_the_last_symbol() {
    let mut data = target_key_bytes();
    data[3] ^= 0xFF;
    let mut key = vec![b'a'; 31];
    key[3] = b' ';
    assert!(!advance_candidate(&mut key, &data));
    // The candidate is left entirely unchanged.
    assert_eq!(key[3], b' ');
    for i in 0..31 {
        if i != 3 {
            assert_eq!(key[i], b'a');
        }
    }
}

#[test]
fn advance_touches_every_mismatch() {
    let mut data = target_key_bytes();
    data[0] ^= 1;
    data[30] ^= 1;
    let mut key = vec![b'a'; 31];
    key[30] = b'z';
    assert!(advance_candidate(&mut key, &data));
    assert_eq!(key[0], b'b');
    assert_eq!(key[30], b'A');
    for i in 1..30 {
        assert_eq!(key[i], b'a');
    }
}

#[test]
fn respond_reports_each_outcome() {
    let data = target_key_bytes();
    let mut key = vec![b'a'; 31];
    assert_eq!(respond(Outcome::Accept, &data, &mut key), SearchStep::Found);
    assert_eq!(key, vec![b'a'; 31]);
    assert_eq!(respond(Outcome::Fault, &data, &mut key), SearchStep::Faulted);
    assert_eq!(key, vec![b'a'; 31]);
    // A failure with no mismatch advances nothing but still asks for a new
    // round.
    assert_eq!(respond(Outcome::Fail, &data, &mut key), SearchStep::Advanced);
    assert_eq!(key, vec![b'a'; 31]);
    // A failure with a mismatch at a position holding the last symbol is the
    // end of the road.
    let mut data = target_key_bytes();
    data[7] ^= 0xFF;
    key[7] = b' ';
    assert_eq!(respond(Outcome::Fail, &data, &mut key), SearchStep::Stuck);
    assert_eq!(key[7], b' ');
}

#[test]
fn run_accepts_the_true_key() {
    // A tape built from the true target key reaches Accept.
    let key = target_key_bytes();
    let mut m = InputTable::new(build_tape(&key));
    assert_eq!(m.run(10_000), Some(Outcome::Accept));
}

#[test]
fn run_rejects_a_wrong_key_and_the_driver_advances_it() {
    let tk = target_key_bytes();
    let mut key = tk.clone();
    // 0xB4 ^ 0xFF is b'K', an alphabet symbol, so the driver may step it.
    key[5] ^= 0xFF;
    let mut m = InputTable::new(build_tape(&key));
    assert_eq!(m.run(10_000), Some(Outcome::Fail));
    // The data region of the finished tape holds the candidate bytes, so
    // exactly the perturbed position mismatches the target key.
    assert_eq!(m.tape[5], key[5]);
    assert_eq!(respond(Outcome::Fail, &m.tape, &mut key), SearchStep::Advanced);
    assert_eq!(key[5], b'L');
    for i in 0..31 {
        if i != 5 {
            assert_eq!(key[i], tk[i]);
        }
    }
}
