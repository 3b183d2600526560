//! How a dialogue is kept in the per-conversation store: its bytes, and the
//! reading back of what the store holds.

use vstd::prelude::*;
use crate::dialogue::{DayState, Dialogue, StartState};

verus! {

/// The bytes of `{"Start":null}`.
pub open spec fn start_bytes() -> Seq<u8> {
    seq![123u8, 34u8, 83u8, 116u8, 97u8, 114u8, 116u8, 34u8, 58u8, 110u8, 117u8, 108u8, 108u8, 125u8]
}

/// The bytes of `{"Day":null}`.
pub open spec fn day_bytes() -> Seq<u8> {
    seq![123u8, 34u8, 68u8, 97u8, 121u8, 34u8, 58u8, 110u8, 117u8, 108u8, 108u8, 125u8]
}

/// The dialogue that the bytes `b` hold, if they hold one.
pub open spec fn decode_spec(b: Seq<u8>) -> Option<Dialogue> {
    if b == start_bytes() {
        Some(Dialogue::Start(StartState))
    } else if b == day_bytes() {
        Some(Dialogue::Day(DayState))
    } else {
        None
    }
}

/// The dialogue that a stored entry holds; a missing or unreadable entry
/// counts as none.
pub open spec fn stored_spec(blob: Option<Seq<u8>>) -> Option<Dialogue> {
    match blob {
        Some(b) => decode_spec(b),
        None => None,
    }
}

fn start_encoding() -> (r: Vec<u8>)
    ensures
        r@ == start_bytes(),
{
    let r: Vec<u8> = vec![123u8, 34u8, 83u8, 116u8, 97u8, 114u8, 116u8, 34u8, 58u8, 110u8, 117u8, 108u8, 108u8, 125u8];
    assert(r@ =~= start_bytes());
    r
}

fn day_encoding() -> (r: Vec<u8>)
    ensures
        r@ == day_bytes(),
{
    let r: Vec<u8> = vec![123u8, 34u8, 68u8, 97u8, 121u8, 34u8, 58u8, 110u8, 117u8, 108u8, 108u8, 125u8];
    assert(r@ =~= day_bytes());
    r
}

/// `a` and `b` hold the same bytes.
fn same_bytes(a: &[u8], b: &Vec<u8>) -> (r: bool)
    ensures
        r == (a@ == b@),
{
    if a.len() != b.len() {
        return false;
    }
    let mut i: usize = 0;
    while i < a.len()
        invariant
            a@.len() == b@.len(),
            i <= a@.len(),
            forall|j: int| 0 <= j < i ==> a@[j] == b@[j],
        decreases a@.len() - i,
    {
        if a[i] != b[i] {
            return false;
        }
        i = i + 1;
    }
    assert(a@ =~= b@);
    true
}

impl Dialogue {
    /// The bytes under which this dialogue is stored.
    pub open spec fn spec_encode(self) -> Seq<u8> {
        match self {
            Dialogue::Start(_) => start_bytes(),
            Dialogue::Day(_) => day_bytes(),
        }
    }

    /// The bytes under which this dialogue is stored.
    pub fn encode(&self) -> (r: Vec<u8>)
        ensures
            r@ == self.spec_encode(),
    {
        match self {
            Dialogue::Start(_) => start_encoding(),
            Dialogue::Day(_) => day_encoding(),
        }
    }

    /// Reads stored bytes back; `None` when they hold no dialogue.
    pub fn decode(b: &[u8]) -> (r: Option<Dialogue>)
        ensures
            r == decode_spec(b@),
    {
        if same_bytes(b, &start_encoding()) {
            Some(Dialogue::Start(StartState))
        } else if same_bytes(b, &day_encoding()) {
            Some(Dialogue::Day(DayState))
        } else {
            None
        }
    }
}

/// The dialogue that a stored entry holds, as handed back by the store's
/// update and removal; an unreadable entry counts as none.
pub fn previous_dialogue(blob: Option<&[u8]>) -> (r: Option<Dialogue>)
    ensures
        r == stored_spec(match blob {
            Some(b) => Some(b@),
            None => None,
        }),
{
    match blob {
        Some(b) => Dialogue::decode(b),
        None => None,
    }
}

/// The current dialogue of a conversation, given its stored entry: the
/// start state where there is none or it cannot be read.
pub fn load_dialogue(blob: Option<&[u8]>) -> (r: Dialogue)
    ensures
        r == (match stored_spec(match blob {
            Some(b) => Some(b@),
            None => None,
        }) {
            Some(d) => d,
            None => Dialogue::Start(StartState),
        }),
{
    match previous_dialogue(blob) {
        Some(d) => d,
        None => Dialogue::Start(StartState),
    }
}

/// What is stored for a dialogue reads back as that dialogue.
pub proof fn lemma_encode_decode(d: Dialogue)
    ensures
        decode_spec(d.spec_encode()) == Some(d),
{
    if d is Day {
        assert(start_bytes().len() != day_bytes().len());
    }
}

} // verus!
