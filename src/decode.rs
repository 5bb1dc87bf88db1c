use vstd::prelude::*;
use crate::stage::{stage_at_index, stage_key, StageID, STAGE_COUNT};

verus! {

/// The path separator, `/`.
pub const SEPARATOR: u8 = 47;

/// The stage reported before any stage has been observed.
pub open spec fn initial_stage() -> StageID {
    StageID::Chapter1_1
}

/// Index of the first NUL byte of `b` at or after `i`, or the length of `b`.
pub open spec fn nul_from(b: Seq<u8>, i: int) -> int
    decreases b.len() - i,
{
    if i >= b.len() {
        b.len() as int
    } else if b[i] == 0 {
        i
    } else {
        nul_from(b, i + 1)
    }
}

/// The text of a NUL-terminated buffer: the bytes before the first NUL.
pub open spec fn c_text(b: Seq<u8>) -> Seq<u8> {
    b.take(nul_from(b, 0))
}

/// Index of the last separator among the first `n` bytes of `t`.
pub open spec fn last_separator(t: Seq<u8>, n: int) -> Option<int>
    decreases n,
{
    if n <= 0 {
        None
    } else if t[n - 1] == SEPARATOR {
        Some(n - 1)
    } else {
        last_separator(t, n - 1)
    }
}

/// Where the trailing path component of `t` starts: after its last separator,
/// or at its last byte when it holds no separator.
pub open spec fn component_start(t: Seq<u8>) -> int {
    match last_separator(t, t.len() as int) {
        Some(i) => i + 1,
        None => if t.len() == 0 {
            0
        } else {
            t.len() - 1
        },
    }
}

/// The trailing path component of the text held in `b`.
pub open spec fn trailing_component(b: Seq<u8>) -> Seq<u8> {
    let t = c_text(b);
    t.subrange(component_start(t), t.len() as int)
}

/// The first stage, from position `i` on, whose key is `k`.
pub open spec fn stage_with_key_from(k: Seq<u8>, i: int) -> Option<StageID>
    decreases STAGE_COUNT - i,
{
    if i < 0 || i >= STAGE_COUNT {
        None
    } else if stage_key(stage_at_index(i)) == k {
        Some(stage_at_index(i))
    } else {
        stage_with_key_from(k, i + 1)
    }
}

/// The stage whose key is `k`, if the table holds one.
pub open spec fn stage_for_key(k: Seq<u8>) -> Option<StageID> {
    stage_with_key_from(k, 0)
}

/// The stage named by the raw bytes `b`, or `previous` (the initial stage when
/// there is none) when the bytes name no known stage.
pub open spec fn decoded_stage(b: Seq<u8>, previous: Option<StageID>) -> StageID {
    match stage_for_key(trailing_component(b)) {
        Some(s) => s,
        None => fallback_stage(previous),
    }
}

/// The stage kept when no new stage can be read.
pub open spec fn fallback_stage(previous: Option<StageID>) -> StageID {
    match previous {
        Some(s) => s,
        None => initial_stage(),
    }
}

/// Length of the text of a NUL-terminated buffer.
pub fn text_len(b: &[u8]) -> (r: usize)
    ensures
        r == nul_from(b@, 0),
        r <= b@.len(),
        c_text(b@) == b@.take(r as int),
{
    let mut i: usize = 0;
    while i < b.len()
        invariant
            i <= b@.len(),
            nul_from(b@, 0) == nul_from(b@, i as int),
        decreases b@.len() - i,
    {
        if b[i] == 0 {
            return i;
        }
        i = i + 1;
    }
    i
}

/// Where the trailing path component of `b[..len]` starts.
pub fn component_offset(b: &[u8], len: usize) -> (r: usize)
    requires
        len <= b@.len(),
    ensures
        r == component_start(b@.take(len as int)),
        r <= len,
{
    let ghost t = b@.take(len as int);
    let mut i: usize = len;
    while i > 0
        invariant
            i <= len <= b@.len(),
            t == b@.take(len as int),
            last_separator(t, len as int) == last_separator(t, i as int),
        decreases i,
    {
        if b[i - 1] == SEPARATOR {
            return i;
        }
        i = i - 1;
    }
    if len == 0 {
        0
    } else {
        len - 1
    }
}

/// Whether `b[start..end]` holds exactly the bytes of `key`.
fn range_equals(b: &[u8], start: usize, end: usize, key: &Vec<u8>) -> (r: bool)
    requires
        start <= end <= b@.len(),
    ensures
        r == (b@.subrange(start as int, end as int) == key@),
{
    if end - start != key.len() {
        return false;
    }
    let mut i: usize = 0;
    while i < key.len()
        invariant
            end - start == key@.len(),
            start <= end <= b@.len(),
            i <= key@.len(),
            forall|j: int| 0 <= j < i ==> b@[start + j] == key@[j],
        decreases key@.len() - i,
    {
        if b[start + i] != key[i] {
            assert(b@.subrange(start as int, end as int)[i as int] != key@[i as int]);
            return false;
        }
        i = i + 1;
    }
    assert(b@.subrange(start as int, end as int) =~= key@);
    true
}

/// Looks up the stage whose key is `b[start..end]`.
pub fn lookup_stage(b: &[u8], start: usize, end: usize) -> (r: Option<StageID>)
    requires
        start <= end <= b@.len(),
    ensures
        r == stage_for_key(b@.subrange(start as int, end as int)),
{
    let ghost k = b@.subrange(start as int, end as int);
    let mut i: usize = 0;
    while i < STAGE_COUNT
        invariant
            i <= STAGE_COUNT,
            start <= end <= b@.len(),
            k == b@.subrange(start as int, end as int),
            stage_for_key(k) == stage_with_key_from(k, i as int),
        decreases STAGE_COUNT - i,
    {
        let s = StageID::from_index(i);
        let key = s.key();
        if range_equals(b, start, end, &key) {
            return Some(s);
        }
        i = i + 1;
    }
    None
}

/// Decodes the stage named by a raw NUL-terminated path read from the game:
/// the trailing path component is looked up in the key table; when it names no
/// known stage, `previous` is kept (the initial stage when there is none).
pub fn decode_stage(raw: &[u8], previous: Option<StageID>) -> (r: StageID)
    ensures
        r == decoded_stage(raw@, previous),
{
    let len = text_len(raw);
    let start = component_offset(raw, len);
    proof {
        let t = raw@.take(len as int);
        assert(t.subrange(start as int, len as int) =~= raw@.subrange(start as int, len as int));
    }
    match lookup_stage(raw, start, len) {
        Some(s) => s,
        None => keep_stage(previous),
    }
}

/// The stage kept when no new stage can be read: `previous`, or the initial
/// stage when there is none.
pub fn keep_stage(previous: Option<StageID>) -> (r: StageID)
    ensures
        r == fallback_stage(previous),
{
    match previous {
        Some(s) => s,
        None => StageID::Chapter1_1,
    }
}

/// Decoding is idempotent: decoding a known string again, with its own result
/// as the previous stage or with any other, gives the same stage; decoding an
/// unknown string gives back the previously observed stage.
pub proof fn lemma_decode_idempotent(b: Seq<u8>, previous: Option<StageID>, other: Option<StageID>)
    ensures
        stage_for_key(trailing_component(b)).is_some() ==> decoded_stage(
            b,
            Some(decoded_stage(b, previous)),
        ) == decoded_stage(b, previous) && decoded_stage(b, other) == decoded_stage(b, previous),
        stage_for_key(trailing_component(b)).is_none() ==> decoded_stage(b, previous) == fallback_stage(
            previous,
        ),
        stage_for_key(trailing_component(b)).is_none() && previous.is_some() ==> decoded_stage(b, previous)
            == previous.unwrap(),
{
}

} // verus!
