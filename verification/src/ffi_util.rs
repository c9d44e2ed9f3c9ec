//! Strings in the form a C interface reads them.
use vstd::prelude::*;
use vstd::utf8::encode_utf8;

verus! {

/// The C form of a byte string: the bytes and a terminating NUL. A string
/// that holds a NUL has no C form; the empty C string stands in for it.
pub open spec fn c_string(bytes: Seq<u8>) -> Seq<u8> {
    if bytes.contains(0u8) {
        seq![0u8]
    } else {
        bytes.push(0u8)
    }
}

/// Whether `bytes` is a C string: it ends in a NUL and holds no other.
pub open spec fn is_c_string(bytes: Seq<u8>) -> bool {
    &&& bytes.len() > 0
    &&& bytes.last() == 0u8
    &&& forall|i: int| 0 <= i < bytes.len() - 1 ==> bytes[i] != 0u8
}

/// The C form of any byte string is a C string.
pub proof fn c_string_is_c_string(bytes: Seq<u8>)
    ensures
        is_c_string(c_string(bytes)),
{
    if !bytes.contains(0u8) {
        assert forall|i: int| 0 <= i < bytes.len() implies bytes.push(0u8)[i] != 0u8 by {
            assert(bytes.contains(bytes[i]));
        }
    }
}

/// The byte strings that a list of buffers holds, in order.
pub open spec fn contents(buffers: Seq<Vec<u8>>) -> Seq<Seq<u8>> {
    Seq::new(buffers.len(), |i: int| buffers[i]@)
}

/// A list of C strings that owns their storage.
pub struct CStringArray {
    cstrings: Vec<Vec<u8>>,
}

impl View for CStringArray {
    type V = Seq<Seq<u8>>;

    closed spec fn view(&self) -> Seq<Seq<u8>> {
        contents(self.cstrings@)
    }
}

impl CStringArray {
    /// Every entry is a C string.
    #[verifier::type_invariant]
    spec fn well_formed(&self) -> bool {
        forall|i: int| 0 <= i < self.cstrings.len() ==> is_c_string(#[trigger] self.cstrings[i]@)
    }

    /// The C forms of `strings`, in order: each string's UTF-8 bytes and a
    /// terminating NUL, or the empty C string for a string that holds a NUL.
    pub fn from_vec(strings: &Vec<String>) -> (array: Self)
        ensures
            array@.len() == strings.len(),
            forall|i: int|
                0 <= i < strings.len() ==> #[trigger] array@[i] == c_string(
                    encode_utf8(strings[i]@),
                ),
    {
        let mut cstrings: Vec<Vec<u8>> = Vec::new();
        let mut i: usize = 0;
        while i < strings.len()
            invariant
                i <= strings.len(),
                cstrings.len() == i,
                forall|j: int|
                    0 <= j < i ==> (#[trigger] cstrings[j])@ == c_string(encode_utf8(strings[j]@)),
            decreases strings.len() - i,
        {
            cstrings.push(to_c_string(strings[i].as_str().as_bytes()));
            i += 1;
        }
        proof {
            assert forall|j: int| 0 <= j < cstrings.len() implies is_c_string(
                #[trigger] cstrings[j]@,
            ) by {
                c_string_is_c_string(encode_utf8(strings[j]@));
            }
        }
        Self { cstrings }
    }

    /// The C strings, each with its terminating NUL.
    pub fn as_cstring_vec(&self) -> (cstrings: &Vec<Vec<u8>>)
        ensures
            contents(cstrings@) == self@,
            forall|i: int| 0 <= i < cstrings.len() ==> is_c_string(#[trigger] cstrings[i]@),
    {
        proof {
            use_type_invariant(self);
        }
        &self.cstrings
    }

    /// The C strings, each with its terminating NUL.
    pub fn as_cstring_slice(&self) -> (cstrings: &[Vec<u8>])
        ensures
            contents(cstrings@) == self@,
            forall|i: int| 0 <= i < cstrings@.len() ==> is_c_string(#[trigger] cstrings@[i]@),
    {
        proof {
            use_type_invariant(self);
        }
        self.cstrings.as_slice()
    }
}

/// The C form of `bytes`.
fn to_c_string(bytes: &[u8]) -> (terminated: Vec<u8>)
    ensures
        terminated@ == c_string(bytes@),
{
    let mut terminated: Vec<u8> = Vec::new();
    let mut i: usize = 0;
    while i < bytes.len()
        invariant
            i <= bytes.len(),
            terminated@ == bytes@.take(i as int),
            forall|k: int| 0 <= k < i ==> bytes@[k] != 0u8,
        decreases bytes.len() - i,
    {
        if bytes[i] == 0 {
            assert(bytes@.contains(bytes@[i as int]));
            let mut empty: Vec<u8> = Vec::new();
            empty.push(0u8);
            assert(empty@ =~= seq![0u8]);
            return empty;
        }
        terminated.push(bytes[i]);
        assert(terminated@ =~= bytes@.take(i + 1));
        i += 1;
    }
    assert(bytes@.take(i as int) =~= bytes@);
    terminated.push(0u8);
    terminated
}

} // verus!
