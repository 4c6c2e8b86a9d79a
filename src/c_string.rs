//! Nul-terminated byte strings, the form in which text crosses the boundary.
use vstd::prelude::*;

verus! {

/// `b` holds no nul byte.
pub open spec fn nul_free(b: Seq<u8>) -> bool {
    forall|i: int| 0 <= i < b.len() ==> b[i] != 0
}

/// Index of the first nul byte of `b`, or the length of `b` where it holds none.
pub open spec fn first_nul(b: Seq<u8>) -> nat
    decreases b.len(),
{
    if b.len() == 0 {
        0
    } else if b[0] == 0 {
        0
    } else {
        1 + first_nul(b.drop_first())
    }
}

/// `b` cut short at its first nul byte: all of `b` where it holds none.
pub open spec fn truncate_at_nul(b: Seq<u8>) -> Seq<u8> {
    b.take(first_nul(b) as int)
}

/// What `first_nul` points at: a nul-free prefix, ended by a nul byte or by the end of `b`.
pub proof fn lemma_first_nul(b: Seq<u8>)
    ensures
        first_nul(b) <= b.len(),
        nul_free(b.take(first_nul(b) as int)),
        first_nul(b) < b.len() ==> b[first_nul(b) as int] == 0,
        nul_free(b) <==> first_nul(b) == b.len(),
    decreases b.len(),
{
    if b.len() > 0 && b[0] != 0 {
        let t = b.drop_first();
        lemma_first_nul(t);
        let n = first_nul(t) as int;
        assert forall|i: int| 0 <= i < n + 1 implies #[trigger] b.take(n + 1)[i] != 0 by {
            if i > 0 {
                assert(b.take(n + 1)[i] == t.take(n)[i - 1]);
            }
        }
        if nul_free(b) {
            assert forall|i: int| 0 <= i < t.len() implies t[i] != 0 by {
                assert(t[i] == b[i + 1]);
            }
        }
        if nul_free(t) {
            assert forall|i: int| 0 <= i < b.len() implies b[i] != 0 by {
                if i > 0 {
                    assert(b[i] == t[i - 1]);
                }
            }
        }
    }
}

/// A nul-free prefix ended by a nul byte is the cut that `first_nul` makes.
proof fn lemma_first_nul_at(b: Seq<u8>, i: int)
    requires
        0 <= i < b.len(),
        b[i] == 0,
        nul_free(b.take(i)),
    ensures
        first_nul(b) == i,
{
    lemma_first_nul(b);
    let n = first_nul(b) as int;
    if n < i {
        assert(b.take(i)[n] == b[n]);
    } else if n > i {
        assert(b.take(n)[i] == b[i]);
    }
}

/// Owned byte string with a terminating nul and no nul before it, as native calls read
/// text. Its view is the bytes before the terminator.
#[derive(Debug, PartialEq, Eq)]
pub struct CString {
    inner: Vec<u8>,
}

impl CString {
    #[verifier::type_invariant]
    spec fn well_formed(&self) -> bool {
        &&& self.inner@.len() >= 1
        &&& self.inner@.last() == 0
        &&& nul_free(self.inner@.drop_last())
    }
}

impl View for CString {
    type V = Seq<u8>;

    closed spec fn view(&self) -> Seq<u8> {
        self.inner@.drop_last()
    }
}

/// The report of a byte sequence that holds a nul byte before its end: where the first one
/// stands, and the bytes themselves, handed back untouched.
#[derive(Debug, PartialEq, Eq)]
pub struct NulError {
    position: usize,
    bytes: Vec<u8>,
}

impl NulError {
    /// Index of the first nul byte.
    pub closed spec fn spec_nul_position(&self) -> usize {
        self.position
    }

    /// The bytes that were refused.
    pub closed spec fn spec_bytes(&self) -> Seq<u8> {
        self.bytes@
    }

    pub fn nul_position(&self) -> (r: usize)
        ensures
            r == self.spec_nul_position(),
    {
        self.position
    }

    pub fn into_vec(self) -> (r: Vec<u8>)
        ensures
            r@ == self.spec_bytes(),
    {
        self.bytes
    }
}

impl CString {
    /// Takes `bytes` as the contents of a nul-terminated string; refuses them, reporting the
    /// first nul, where they hold one.
    pub fn new(bytes: Vec<u8>) -> (r: Result<CString, NulError>)
        ensures
            match r {
                Ok(c) => nul_free(bytes@) && c@ == bytes@,
                Err(e) => {
                    &&& !nul_free(bytes@)
                    &&& e.spec_nul_position() == first_nul(bytes@)
                    &&& e.spec_bytes() == bytes@
                },
            },
    {
        let mut i: usize = 0;
        while i < bytes.len()
            invariant
                i <= bytes@.len(),
                nul_free(bytes@.take(i as int)),
            decreases bytes@.len() - i,
        {
            if bytes[i] == 0 {
                proof {
                    lemma_first_nul_at(bytes@, i as int);
                }
                return Err(NulError { position: i, bytes });
            }
            assert(bytes@.take(i as int + 1) == bytes@.take(i as int).push(bytes@[i as int]));
            i = i + 1;
        }
        assert(bytes@.take(i as int) == bytes@);
        let mut inner = bytes;
        inner.push(0u8);
        assert(inner@.drop_last() == bytes@);
        Ok(CString { inner })
    }

    /// Takes `bytes`, which hold no nul, as the contents of a nul-terminated string.
    pub fn from_vec_unchecked(bytes: Vec<u8>) -> (r: CString)
        requires
            nul_free(bytes@),
        ensures
            r@ == bytes@,
    {
        let mut inner = bytes;
        inner.push(0u8);
        assert(inner@.drop_last() == bytes@);
        CString { inner }
    }

    /// The contents, without the terminator.
    pub fn as_bytes(&self) -> (r: &[u8])
        ensures
            r@ == self@,
            nul_free(r@),
    {
        proof {
            use_type_invariant(self);
        }
        let all = self.inner.as_slice();
        vstd::slice::slice_subrange(all, 0, self.inner.len() - 1)
    }

    /// The contents followed by the terminator: what a native call reads.
    pub fn as_bytes_with_nul(&self) -> (r: &[u8])
        ensures
            r@ == self@.push(0),
    {
        proof {
            use_type_invariant(self);
        }
        assert(self.inner@ == self.inner@.drop_last().push(0));
        self.inner.as_slice()
    }

    /// The contents, without the terminator.
    pub fn into_bytes(self) -> (r: Vec<u8>)
        ensures
            r@ == self@,
            nul_free(r@),
    {
        proof {
            use_type_invariant(&self);
        }
        let mut inner = self.inner;
        inner.pop();
        inner
    }
}

/// The lossy form of `CString::new`: never fails, and cuts `bytes` short at their first
/// nul byte where they hold one.
pub fn cstring_new_nofail(bytes: Vec<u8>) -> (r: CString)
    ensures
        r@ == truncate_at_nul(bytes@),
{
    proof {
        lemma_first_nul(bytes@);
    }
    match CString::new(bytes) {
        Ok(s) => s,
        Err(e) => {
            let nul_pos = e.nul_position();
            let mut bytes = e.into_vec();
            bytes.truncate(nul_pos);
            CString::from_vec_unchecked(bytes)
        },
    }
}

} // verus!
