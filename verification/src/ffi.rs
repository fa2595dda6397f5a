//! C strings: NUL-terminated arrays of C chars, and arrays of them.
use vstd::prelude::*;
use vstd::string::StringSliceAdditionalSpecFns;

verus! {

/// A C char.
#[allow(non_camel_case_types)]
#[derive(Debug, Copy, Clone, PartialEq, Eq, Structural)]
pub struct c_char(pub u8);

/// The chars of `s` as bytes.
pub open spec fn char_bytes(s: Seq<c_char>) -> Seq<u8> {
    s.map_values(|c: c_char| c.0)
}

/// Whether `n` is the length of the C string at the start of `s`: `s[n]`
/// is its NUL, and none comes before.
pub open spec fn is_strlen(s: Seq<c_char>, n: int) -> bool {
    &&& 0 <= n < s.len()
    &&& s[n].0 == 0
    &&& forall|i: int| 0 <= i < n ==> s[i].0 != 0
}

/// Whether `s` holds a NUL.
pub open spec fn has_nul(s: Seq<c_char>) -> bool {
    exists|n: int| 0 <= n < s.len() && s[n].0 == 0
}

/// Whether `c` is the C string at the start of `s`: its chars up to its
/// first NUL, that NUL included.
pub open spec fn c_string_in(s: Seq<c_char>, c: Seq<c_char>) -> bool {
    exists|n: int| is_strlen(s, n) && c == s.take(n + 1)
}

/// The length of the C string at the start of `s`, which must hold a NUL:
/// the number of chars before the first NUL.
pub fn strlen(s: &[c_char]) -> (r: usize)
    requires
        has_nul(s@),
    ensures
        is_strlen(s@, r as int),
{
    let ghost witness = choose|n: int| 0 <= n < s@.len() && s@[n].0 == 0;
    let mut i: usize = 0;
    while s[i].0 != 0
        invariant
            0 <= witness < s@.len(),
            s@[witness].0 == 0,
            i <= witness,
            forall|j: int| 0 <= j < i ==> s@[j].0 != 0,
        decreases witness - i,
    {
        i = i + 1;
    }
    i
}

/// An owned C string: its chars and the NUL that ends them.
pub struct CString(Vec<c_char>);

impl CString {
    /// There is at least the final NUL.
    #[verifier::type_invariant]
    spec fn has_nul(self) -> bool {
        self.0@.len() >= 1 && self.0@.last().0 == 0
    }

    /// The chars, the final NUL included.
    pub closed spec fn chars(self) -> Seq<c_char> {
        self.0@
    }

    /// The length of the string: its chars but the final NUL.
    pub fn len(&self) -> (r: usize)
        ensures
            r == self.chars().len() - 1,
    {
        proof {
            use_type_invariant(self);
        }
        self.0.len() - 1
    }

    /// The chars, the final NUL included, to be handed to C.
    pub fn as_slice(&self) -> (r: &[c_char])
        ensures
            r@ == self.chars(),
    {
        self.0.as_slice()
    }

    /// The C string of the chars `s` up to their first NUL, which must be
    /// there.
    pub fn from_c_chars(s: &[c_char]) -> (r: Self)
        requires
            has_nul(s@),
        ensures
            c_string_in(s@, r.chars()),
    {
        let len = strlen(s);
        let mut v: Vec<c_char> = Vec::new();
        let mut i: usize = 0;
        while i < len
            invariant
                is_strlen(s@, len as int),
                i <= len,
                v@ == s@.take(i as int),
            decreases len - i,
        {
            v.push(s[i]);
            proof {
                assert(v@ =~= s@.take(i as int + 1));
            }
            i = i + 1;
        }
        v.push(c_char(0));
        proof {
            assert(v@ =~= s@.take(len as int + 1));
        }
        CString(v)
    }
}

/// The chars of the C string of a Rust string of bytes `s`: those bytes
/// and a NUL.
pub open spec fn cstring_chars_of(s: Seq<u8>) -> Seq<c_char> {
    s.map_values(|b: u8| c_char(b)).push(c_char(0))
}

impl CString {
    /// The C string of the bytes of a Rust string, then a NUL.
    pub fn from(rust_str: &str) -> (r: CString)
        ensures
            r.chars() == cstring_chars_of(rust_str.spec_bytes()),
    {
        let bytes = rust_str.as_bytes();
        let mut v: Vec<c_char> = Vec::new();
        let mut i: usize = 0;
        while i < bytes.len()
            invariant
                i <= bytes@.len(),
                v@ == bytes@.take(i as int).map_values(|b: u8| c_char(b)),
            decreases bytes@.len() - i,
        {
            v.push(c_char(bytes[i]));
            proof {
                assert(v@ =~= bytes@.take(i as int + 1).map_values(|b: u8| c_char(b)));
            }
            i = i + 1;
        }
        v.push(c_char(0));
        proof {
            assert(bytes@.take(bytes@.len() as int) =~= bytes@);
        }
        CString(v)
    }
}

/// An array of C strings, as handed to C: each string, in order.
pub struct CStringArray {
    borrowed_content: Vec<CString>,
}

impl CStringArray {
    /// The strings.
    pub closed spec fn strings(self) -> Seq<CString> {
        self.borrowed_content@
    }

    /// The strings, in order; the array of pointers handed to C points to
    /// each, then to nothing.
    pub fn as_slice(&self) -> (r: &[CString])
        ensures
            r@ == self.strings(),
    {
        self.borrowed_content.as_slice()
    }

    /// The array of the C strings of Rust strings.
    pub fn from(rust_str_array: &[&str]) -> (r: CStringArray)
        ensures
            r.strings().len() == rust_str_array@.len(),
            forall|i: int|
                0 <= i < rust_str_array@.len() ==> (#[trigger] r.strings()[i]).chars()
                    == cstring_chars_of(rust_str_array@[i].spec_bytes()),
    {
        let mut borrowed_content: Vec<CString> = Vec::new();
        let mut i: usize = 0;
        while i < rust_str_array.len()
            invariant
                i <= rust_str_array@.len(),
                borrowed_content@.len() == i,
                forall|k: int|
                    0 <= k < i ==> (#[trigger] borrowed_content@[k]).chars() == cstring_chars_of(
                        rust_str_array@[k].spec_bytes(),
                    ),
            decreases rust_str_array@.len() - i,
        {
            let string = CString::from(rust_str_array[i]);
            borrowed_content.push(string);
            i = i + 1;
        }
        CStringArray { borrowed_content }
    }

    /// The array of the C strings `c_strings` (each up to its first NUL,
    /// which must be there), as read from a NULL-terminated array of
    /// pointers.
    pub fn from_c_strings(c_strings: &Vec<Vec<c_char>>) -> (r: CStringArray)
        requires
            forall|i: int| 0 <= i < c_strings@.len() ==> has_nul(#[trigger] c_strings@[i]@),
        ensures
            r.strings().len() == c_strings@.len(),
            forall|i: int|
                0 <= i < c_strings@.len() ==> c_string_in(
                    c_strings@[i]@,
                    (#[trigger] r.strings()[i]).chars(),
                ),
    {
        let mut borrowed_content: Vec<CString> = Vec::new();
        let mut i: usize = 0;
        while i < c_strings.len()
            invariant
                i <= c_strings@.len(),
                forall|k: int| 0 <= k < c_strings@.len() ==> has_nul(#[trigger] c_strings@[k]@),
                borrowed_content@.len() == i,
                forall|k: int|
                    0 <= k < i ==> c_string_in(
                        c_strings@[k]@,
                        (#[trigger] borrowed_content@[k]).chars(),
                    ),
            decreases c_strings@.len() - i,
        {
            let string = CString::from_c_chars(c_strings[i].as_slice());
            let ghost before = borrowed_content@;
            borrowed_content.push(string);
            proof {
                assert forall|k: int| 0 <= k < i + 1 implies c_string_in(
                    c_strings@[k]@,
                    (#[trigger] borrowed_content@[k]).chars(),
                ) by {
                    if k < i {
                        assert(borrowed_content@[k] == before[k]);
                    }
                }
            }
            i = i + 1;
        }
        CStringArray { borrowed_content }
    }
}


/// The C string of a Rust string that holds no NUL is as long as it, and
/// read back from its own chars it is the same C string.
pub proof fn lemma_cstring_roundtrip(b: Seq<u8>)
    requires
        forall|i: int| 0 <= i < b.len() ==> b[i] != 0,
    ensures
        is_strlen(cstring_chars_of(b), b.len() as int),
        c_string_in(cstring_chars_of(b), cstring_chars_of(b)),
{
    let c = cstring_chars_of(b);
    assert forall|i: int| 0 <= i < b.len() implies c[i].0 != 0 by {
        assert(c[i] == c_char(b[i]));
    }
    assert(c.take(b.len() as int + 1) =~= c);
    assert(is_strlen(c, b.len() as int) && c == c.take(b.len() as int + 1));
}

} // verus!
