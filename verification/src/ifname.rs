use vstd::prelude::*;
use vstd::slice::slice_index_get;
use crate::errors::CaptureError;

verus! {

/// Width of the fixed interface-name field: at most 15 name bytes plus
/// a terminating zero byte.
pub const INTERFACE_NAME_FIELD_LEN: usize = 16;

/// Longest usable interface name.
pub const MAX_INTERFACE_NAME_LEN: usize = 15;

/// Whether a name fits the fixed field with room for its terminator.
pub open spec fn name_fits(name: Seq<u8>) -> bool {
    name.len() <= MAX_INTERFACE_NAME_LEN
}

/// Index of the first zero byte of `s`; `s.len()` when there is none.
pub open spec fn first_zero(s: Seq<u8>) -> int
    decreases s.len(),
{
    if s.len() == 0 {
        0
    } else if s[0] == 0 {
        0
    } else {
        1 + first_zero(s.skip(1))
    }
}

pub proof fn lemma_first_zero(s: Seq<u8>)
    ensures
        0 <= first_zero(s) <= s.len(),
        first_zero(s) < s.len() ==> s[first_zero(s)] == 0,
        forall|j: int| 0 <= j < first_zero(s) ==> s[j] != 0,
    decreases s.len(),
{
    if s.len() == 0 {
    } else if s[0] == 0 {
    } else {
        let t = s.skip(1);
        lemma_first_zero(t);
        assert forall|j: int| 0 <= j < first_zero(s) implies s[j] != 0 by {
            if j > 0 {
                assert(t[j - 1] == s[j]);
            }
        }
        if first_zero(s) < s.len() {
            assert(t[first_zero(s) - 1] == s[first_zero(s)]);
        }
    }
}

/// The first zero is pinned by its defining properties: everything
/// before `k` is nonzero, and `k` is either a zero byte or the end.
pub proof fn lemma_first_zero_is(s: Seq<u8>, k: int)
    requires
        0 <= k <= s.len(),
        k < s.len() ==> s[k] == 0,
        forall|j: int| 0 <= j < k ==> s[j] != 0,
    ensures
        first_zero(s) == k,
    decreases s.len(),
{
    if s.len() == 0 {
    } else if s[0] == 0 {
        assert(k == 0);
    } else {
        let t = s.skip(1);
        assert(k >= 1);
        assert forall|j: int| 0 <= j < k - 1 implies t[j] != 0 by {
            assert(t[j] == s[j + 1]);
        }
        if k - 1 < t.len() {
            assert(t[k - 1] == s[k]);
        }
        lemma_first_zero_is(t, k - 1);
    }
}

/// Encodes a name into the fixed 16-byte field: the name bytes followed
/// by zero padding. An oversized name is rejected locally, so no OS
/// call is ever issued with one.
pub fn encode_interface_name(name: &[u8]) -> (r: Result<Vec<u8>, CaptureError>)
    ensures
        match r {
            Ok(field) => {
                &&& name_fits(name@)
                &&& field@.len() == INTERFACE_NAME_FIELD_LEN
                &&& field@.subrange(0, name@.len() as int) == name@
                &&& forall|j: int|
                    name@.len() <= j < INTERFACE_NAME_FIELD_LEN ==> field@[j] == 0
            },
            Err(e) => {
                &&& e == CaptureError::InvalidArgument
                &&& !name_fits(name@)
            },
        },
{
    if name.len() > MAX_INTERFACE_NAME_LEN {
        return Err(CaptureError::InvalidArgument);
    }
    let mut field: Vec<u8> = Vec::new();
    let mut i: usize = 0;
    while i < name.len()
        invariant
            i <= name@.len() <= MAX_INTERFACE_NAME_LEN,
            field@ == name@.subrange(0, i as int),
        decreases name@.len() - i,
    {
        field.push(*slice_index_get(name, i));
        proof {
            assert(field@ =~= name@.subrange(0, i + 1));
        }
        i = i + 1;
    }
    proof {
        assert(field@ =~= name@);
    }
    while field.len() < INTERFACE_NAME_FIELD_LEN
        invariant
            name@.len() <= field@.len() <= INTERFACE_NAME_FIELD_LEN,
            field@.subrange(0, name@.len() as int) == name@,
            forall|j: int| name@.len() <= j < field@.len() ==> field@[j] == 0,
        decreases INTERFACE_NAME_FIELD_LEN - field@.len(),
    {
        field.push(0);
        proof {
            assert(field@.subrange(0, name@.len() as int)
                =~= field@.subrange(0, field@.len() - 1).subrange(0, name@.len() as int));
        }
    }
    Ok(field)
}

/// Recovers the bound name from a kernel-filled field: the bytes before
/// the first zero. A field with no zero byte at all is not a valid
/// name and is rejected.
pub fn parse_interface_name(field: &[u8]) -> (r: Result<Vec<u8>, CaptureError>)
    ensures
        match r {
            Ok(name) => {
                &&& first_zero(field@) < field@.len()
                &&& name@ == field@.subrange(0, first_zero(field@))
            },
            Err(e) => {
                &&& e == CaptureError::InvalidArgument
                &&& first_zero(field@) == field@.len()
            },
        },
{
    let mut out: Vec<u8> = Vec::new();
    let mut i: usize = 0;
    while i < field.len()
        invariant
            i <= field@.len(),
            forall|j: int| 0 <= j < i ==> field@[j] != 0,
            out@ == field@.subrange(0, i as int),
        decreases field@.len() - i,
    {
        let b = *slice_index_get(field, i);
        if b == 0 {
            proof {
                lemma_first_zero_is(field@, i as int);
            }
            return Ok(out);
        }
        out.push(b);
        proof {
            assert(out@ =~= field@.subrange(0, i + 1));
        }
        i = i + 1;
    }
    proof {
        lemma_first_zero_is(field@, field@.len() as int);
    }
    Err(CaptureError::InvalidArgument)
}

} // verus!
