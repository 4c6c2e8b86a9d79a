//! The trait set through which a value is sent to, and received from, a native call.
use vstd::prelude::*;

use vstd::utf8::*;

use crate::c_string::{cstring_new_nofail, first_nul, lemma_first_nul, nul_free, truncate_at_nul, CString};
use crate::error::Error;

verus! {

/// A type that native calls return and take.
pub trait OpenCVType<'a>: Sized + OpenCVTypeArg<'a> {
    /// What a caller hands over in place of an owned value (`&str` for `String`).
    type Arg: OpenCVTypeArg<'a>;
    /// What a native call returns for a value of this type.
    type ExternReceive;

    /// `s` describes a value of this type: the native side made it for one.
    spec fn extern_valid(s: Self::ExternReceive) -> bool;

    /// `v` is the value that `s` describes.
    spec fn received_from(v: Self, s: Self::ExternReceive) -> bool;

    /// Builds the value that a native call returned.
    fn opencv_from_extern(s: Self::ExternReceive) -> (r: Self)
        requires
            Self::extern_valid(s),
        ensures
            Self::received_from(r, s),
    ;
}

/// A value that can be put into the container that carries it across the boundary.
pub trait OpenCVTypeArg<'a>: Sized {
    type ExternContainer: OpenCVTypeExternContainer<'a>;

    /// The strict conversion accepts `self`.
    spec fn representable(self) -> bool;

    /// `c` carries `self`, as the infallible conversion makes it.
    spec fn contained_in(self, c: Self::ExternContainer) -> bool;

    /// Strict conversion: fails, rather than alter the value, where it cannot be carried.
    fn opencv_into_extern_container(self) -> (r: Result<Self::ExternContainer, Error>)
        ensures
            r is Ok <==> self.representable(),
            r matches Ok(c) ==> self.contained_in(c),
    ;

    /// Infallible conversion: where the value cannot be carried as it is, repairs it.
    fn opencv_into_extern_container_nofail(self) -> (r: Self::ExternContainer)
        ensures
            self.contained_in(r),
    ;
}

/// The container that carries a value across the boundary.
pub trait OpenCVTypeExternContainer<'a> {
    /// What a call that reads the value is given.
    type ExternSend;
    /// What a call that may write the value, or that takes it over, is given.
    type ExternSendMut;

    /// `s` shows the native side the contents of `self`.
    spec fn sends(&self, s: Self::ExternSend) -> bool;

    /// `s` shows the native side the contents of `self`, for writing.
    spec fn sends_mut(&self, s: Self::ExternSendMut) -> bool;

    /// The native side may take `self` over. Containers that are only ever lent never may.
    spec fn transferable(&self) -> bool;

    /// Shows the contents to a call that reads them.
    fn opencv_as_extern(&'a self) -> (r: Self::ExternSend)
        ensures
            self.sends(r),
    ;

    /// Shows the contents to a call that may write them.
    fn opencv_as_extern_mut(&'a mut self) -> (r: Self::ExternSendMut)
        ensures
            old(self).sends_mut(r),
    ;

    /// Hands the container over to the native side for good.
    fn opencv_into_extern(self) -> (r: Self::ExternSendMut)
        requires
            self.transferable(),
        ensures
            self.sends_mut(r),
    ;
}

/// Relies on `String::from_utf8`: it accepts exactly the well-formed UTF-8 sequences, and
/// then holds the characters that they encode.
#[verifier::external_body]
fn string_from_utf8(bytes: Vec<u8>) -> (r: Option<String>)
    ensures
        r is Some <==> valid_utf8(bytes@),
        r matches Some(s) ==> s@ == decode_utf8(bytes@),
{
    String::from_utf8(bytes).ok()
}

/// Relies on `Box::leak`: the boxed value stays where it is, never dropped, and is
/// reachable through the reference handed back.
#[verifier::external_body]
pub(crate) fn leak_box<'a, T: 'a>(b: Box<T>) -> (r: &'a mut T)
    ensures
        *r == *b,
{
    Box::leak(b)
}

/// What the strict conversion reports for text `t`: where the first nul byte of its
/// UTF-8 bytes stands.
pub open spec fn text_nul_error(t: Seq<char>) -> Error {
    Error::InteriorNul { position: first_nul(encode_utf8(t)) as usize }
}

/// The UTF-8 bytes of `s`.
fn text_bytes(s: &str) -> (r: Vec<u8>)
    ensures
        r@ == encode_utf8(s@),
{
    vstd::slice::slice_to_vec(s.as_bytes())
}

/// Nul-terminates the bytes of `t`, refusing text that holds a nul character.
fn text_into_cstring(t: &str) -> (r: Result<CString, Error>)
    ensures
        match r {
            Ok(c) => !t@.contains('\0') && c@ == encode_utf8(t@),
            Err(e) => {
                &&& t@.contains('\0')
                &&& e == text_nul_error(t@)
            },
        },
{
    proof {
        crate::text::lemma_text_nul_free(t@);
    }
    match CString::new(text_bytes(t)) {
        Ok(c) => Ok(c),
        Err(e) => Err(Error::from(e)),
    }
}

/// Nul-terminates the bytes of `t`, cut short at the first nul character.
fn text_into_cstring_nofail(t: &str) -> (r: CString)
    ensures
        r@ == truncate_at_nul(encode_utf8(t@)),
{
    cstring_new_nofail(text_bytes(t))
}

/// Text goes out as a nul-terminated copy of its UTF-8 bytes, and comes back as UTF-8
/// bytes that the native side lends for the duration of the call.
impl<'a> OpenCVType<'a> for String {
    type Arg = &'a str;
    type ExternReceive = &'a [u8];

    open spec fn extern_valid(s: &'a [u8]) -> bool {
        valid_utf8(s@)
    }

    open spec fn received_from(v: String, s: &'a [u8]) -> bool {
        v@ == decode_utf8(s@)
    }

    fn opencv_from_extern(s: &'a [u8]) -> (r: String) {
        match string_from_utf8(vstd::slice::slice_to_vec(s)) {
            Some(t) => t,
            None => String::new(),
        }
    }
}

impl<'a> OpenCVTypeArg<'a> for String {
    type ExternContainer = CString;

    open spec fn representable(self) -> bool {
        !self@.contains('\0')
    }

    open spec fn contained_in(self, c: CString) -> bool {
        c@ == truncate_at_nul(encode_utf8(self@))
    }

    fn opencv_into_extern_container(self) -> (r: Result<CString, Error>)
        ensures
            r matches Err(e) ==> e == text_nul_error(self@),
    {
        proof {
            let b = encode_utf8(self@);
            lemma_first_nul(b);
            crate::text::lemma_text_nul_free(self@);
            assert(b.take(b.len() as int) == b);
        }
        text_into_cstring(self.as_str())
    }

    fn opencv_into_extern_container_nofail(self) -> (r: CString) {
        text_into_cstring_nofail(self.as_str())
    }
}

impl<'a, 'b> OpenCVTypeArg<'a> for &'b str {
    type ExternContainer = CString;

    open spec fn representable(self) -> bool {
        !self@.contains('\0')
    }

    open spec fn contained_in(self, c: CString) -> bool {
        c@ == truncate_at_nul(encode_utf8(self@))
    }

    fn opencv_into_extern_container(self) -> (r: Result<CString, Error>)
        ensures
            r matches Err(e) ==> e == text_nul_error(self@),
    {
        proof {
            let b = encode_utf8(self@);
            lemma_first_nul(b);
            crate::text::lemma_text_nul_free(self@);
            assert(b.take(b.len() as int) == b);
        }
        text_into_cstring(self)
    }

    fn opencv_into_extern_container_nofail(self) -> (r: CString) {
        text_into_cstring_nofail(self)
    }
}

/// A nul-terminated string is only lent: a call reads its bytes, terminator included.
impl<'a> OpenCVTypeExternContainer<'a> for CString {
    type ExternSend = &'a [u8];
    type ExternSendMut = &'a [u8];

    open spec fn sends(&self, s: &'a [u8]) -> bool {
        s@ == self@.push(0)
    }

    open spec fn sends_mut(&self, s: &'a [u8]) -> bool {
        s@ == self@.push(0)
    }

    open spec fn transferable(&self) -> bool {
        false
    }

    fn opencv_as_extern(&'a self) -> (r: &'a [u8]) {
        self.as_bytes_with_nul()
    }

    fn opencv_as_extern_mut(&'a mut self) -> (r: &'a [u8]) {
        self.as_bytes_with_nul()
    }

    fn opencv_into_extern(self) -> (r: &'a [u8]) {
        let none: Option<&'a [u8]> = None;
        none.expect("a nul-terminated string is only lent to native calls, never handed over")
    }
}

/// A byte buffer comes back from a call as bytes that the native side lends, and is copied.
impl<'a> OpenCVType<'a> for Vec<u8> {
    type Arg = Vec<u8>;
    type ExternReceive = &'a [u8];

    open spec fn extern_valid(s: &'a [u8]) -> bool {
        true
    }

    open spec fn received_from(v: Vec<u8>, s: &'a [u8]) -> bool {
        v@ == s@
    }

    fn opencv_from_extern(s: &'a [u8]) -> (r: Vec<u8>) {
        vstd::slice::slice_to_vec(s)
    }
}

impl<'a> OpenCVTypeArg<'a> for Vec<u8> {
    type ExternContainer = Vec<u8>;

    open spec fn representable(self) -> bool {
        true
    }

    open spec fn contained_in(self, c: Vec<u8>) -> bool {
        c@ == self@
    }

    fn opencv_into_extern_container(self) -> (r: Result<Vec<u8>, Error>) {
        Ok(self.opencv_into_extern_container_nofail())
    }

    fn opencv_into_extern_container_nofail(self) -> (r: Vec<u8>) {
        self
    }
}

/// A byte buffer is only lent: a call is shown its bytes and their count.
impl<'a> OpenCVTypeExternContainer<'a> for Vec<u8> {
    type ExternSend = &'a [u8];
    type ExternSendMut = &'a mut [u8];

    open spec fn sends(&self, s: &'a [u8]) -> bool {
        s@ == self@
    }

    open spec fn sends_mut(&self, s: &'a mut [u8]) -> bool {
        s@ == self@
    }

    open spec fn transferable(&self) -> bool {
        false
    }

    fn opencv_as_extern(&'a self) -> (r: &'a [u8]) {
        self.as_slice()
    }

    fn opencv_as_extern_mut(&'a mut self) -> (r: &'a mut [u8])
        ensures
            final(self)@ == final(r)@,
    {
        self.as_mut_slice()
    }

    fn opencv_into_extern(self) -> (r: &'a mut [u8]) {
        let none: Option<&'a mut [u8]> = None;
        none.expect("a byte buffer is only lent to native calls, never handed over")
    }
}

/// A plain value (a number, a flag, a handle) that crosses the boundary as itself.
pub trait OpenCVTypeCopy: Copy {}

impl<'a, T: OpenCVTypeCopy> OpenCVType<'a> for T {
    type Arg = T;
    type ExternReceive = T;

    open spec fn extern_valid(s: T) -> bool {
        true
    }

    open spec fn received_from(v: T, s: T) -> bool {
        v == s
    }

    fn opencv_from_extern(s: T) -> (r: T) {
        s
    }
}

impl<'a, T: OpenCVTypeCopy> OpenCVTypeArg<'a> for T {
    type ExternContainer = T;

    open spec fn representable(self) -> bool {
        true
    }

    open spec fn contained_in(self, c: T) -> bool {
        c == self
    }

    fn opencv_into_extern_container(self) -> (r: Result<T, Error>) {
        Ok(self.opencv_into_extern_container_nofail())
    }

    fn opencv_into_extern_container_nofail(self) -> (r: T) {
        self
    }
}

impl<'a, T: OpenCVTypeCopy> OpenCVTypeExternContainer<'a> for T {
    type ExternSend = T;
    type ExternSendMut = T;

    open spec fn sends(&self, s: T) -> bool {
        s == *self
    }

    open spec fn sends_mut(&self, s: T) -> bool {
        s == *self
    }

    open spec fn transferable(&self) -> bool {
        true
    }

    fn opencv_as_extern(&'a self) -> (r: T) {
        *self
    }

    fn opencv_as_extern_mut(&'a mut self) -> (r: T) {
        *self
    }

    fn opencv_into_extern(self) -> (r: T) {
        self
    }
}

impl OpenCVTypeCopy for bool {}

impl OpenCVTypeCopy for i8 {}

impl OpenCVTypeCopy for u8 {}

impl OpenCVTypeCopy for i16 {}

impl OpenCVTypeCopy for u16 {}

impl OpenCVTypeCopy for i32 {}

impl OpenCVTypeCopy for u32 {}

impl OpenCVTypeCopy for i64 {}

impl OpenCVTypeCopy for u64 {}

impl OpenCVTypeCopy for isize {}

impl OpenCVTypeCopy for usize {}

/// Text without a nul character survives the strict conversion and the way back: the
/// conversion accepts it, and the bytes that its container shows a call, received back as
/// text, are the same characters.
pub proof fn text_round_trip<'a>(s: String, c: CString, received: &'a [u8], back: String)
    requires
        !s@.contains('\0'),
        <String as OpenCVTypeArg<'a>>::contained_in(s, c),
        received@ == c@,
        <String as OpenCVType<'a>>::received_from(back, received),
    ensures
        <String as OpenCVTypeArg<'a>>::representable(s),
        <String as OpenCVType<'a>>::extern_valid(received),
        back@ == s@,
{
    let b = encode_utf8(s@);
    crate::text::lemma_text_nul_free(s@);
    lemma_first_nul(b);
    assert(b.take(b.len() as int) == b);
    encode_utf8_valid_utf8(s@);
    encode_utf8_decode_utf8(s@);
}

/// The infallible text conversion has an answer for every text. Where the text's bytes hold
/// no nul it carries them all; where they do, it carries exactly the bytes before the first,
/// which are the encoding of the characters before the first nul character.
pub proof fn lossy_text_truncates<'a>(s: String, c: CString)
    requires
        <String as OpenCVTypeArg<'a>>::contained_in(s, c),
    ensures
        !s@.contains('\0') ==> c@ == encode_utf8(s@),
        s@.contains('\0') ==> ({
            let b = encode_utf8(s@);
            let i = first_nul(b) as int;
            &&& i < b.len()
            &&& b[i] == 0
            &&& nul_free(b.take(i))
            &&& c@ == b.take(i)
        }),
        forall|k: int|
            0 <= k < s@.len() && s@[k] == '\0' && !s@.take(k).contains('\0') ==> c@
                == encode_utf8(#[trigger] s@.take(k)),
{
    let b = encode_utf8(s@);
    crate::text::lemma_text_nul_free(s@);
    lemma_first_nul(b);
    assert(b.take(b.len() as int) == b);
    assert forall|k: int|
        0 <= k < s@.len() && s@[k] == '\0' && !s@.take(k).contains('\0') implies c@
            == encode_utf8(#[trigger] s@.take(k)) by {
        crate::text::lemma_text_cut(s@, k);
    }
}

/// A plain value crosses the boundary and comes back as the very same value: its container,
/// what a call is shown of that container, and what is received back from that are all the
/// value itself.
pub proof fn scalar_identity<'a, T: OpenCVTypeCopy>(v: T, c: T, sent: T, back: T)
    requires
        <T as OpenCVTypeArg<'a>>::contained_in(v, c),
        <T as OpenCVTypeExternContainer<'a>>::sends(&c, sent),
        <T as OpenCVType<'a>>::received_from(back, sent),
    ensures
        back == v,
{
}

/// The containers that are only lent, nul-terminated strings and byte buffers, may never be
/// handed over: their owned transfer demands `transferable`, which never holds of them, so no
/// checked caller reaches it, and any other meets the abort in its body.
pub proof fn borrow_only_never_transferred<'a>(c: CString, v: Vec<u8>)
    ensures
        !<CString as OpenCVTypeExternContainer<'a>>::transferable(&c),
        !<Vec<u8> as OpenCVTypeExternContainer<'a>>::transferable(&v),
{
}

/// A byte buffer shown to a call as its bytes and their count, and read back through that
/// view for that count, gives back exactly the original bytes.
pub proof fn byte_buffer_round_trip<'a>(v: Vec<u8>, c: Vec<u8>, sent: &'a [u8], back: Vec<u8>)
    requires
        <Vec<u8> as OpenCVTypeArg<'a>>::contained_in(v, c),
        <Vec<u8> as OpenCVTypeExternContainer<'a>>::sends(&c, sent),
        <Vec<u8> as OpenCVType<'a>>::received_from(back, sent),
    ensures
        sent@.len() == v@.len(),
        back@ == v@,
{
}

} // verus!
