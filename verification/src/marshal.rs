//! The marshalling layer: every text value crossing the boundary into
//! foreign code must be null-terminated and use only the null-free
//! ASCII subset. Values are validated, not assumed; each outbound text
//! value is an independently owned allocation.

use vstd::prelude::*;

verus! {

use vstd::string::StringSliceAdditionalSpecFns;
use vstd::utf8::is_ascii_chars;

/// The byte each character of an ASCII text marshals to.
pub open spec fn ascii_bytes(s: Seq<char>) -> Seq<u8> {
    s.map(|_i: int, c: char| c as u8)
}

/// A byte sequence fit to stand before a null terminator: 7-bit ASCII,
/// never the null byte itself.
pub open spec fn null_free_ascii(s: Seq<u8>) -> bool {
    forall|i: int| 0 <= i < s.len() ==> 0 < #[trigger] s[i] < 128
}

/// A text value fit to cross the boundary: ASCII characters only, with
/// no embedded null.
pub open spec fn marshalable(s: Seq<char>) -> bool {
    is_ascii_chars(s) && null_free_ascii(ascii_bytes(s))
}

/// The foreign-safe view of a text value: the value's bytes followed by
/// a single trailing null terminator.
pub open spec fn cstr_bytes(s: Seq<u8>) -> Seq<u8> {
    s.push(0u8)
}

/// Well-formedness of a foreign-safe text view: non-empty, terminated
/// by null, and null-free ASCII before the terminator.
pub open spec fn cstr_wf(v: Seq<u8>) -> bool {
    &&& v.len() >= 1
    &&& v[v.len() - 1] == 0u8
    &&& null_free_ascii(v.take(v.len() - 1))
}

/// A marshalable payload's view is well-formed and is the image of that
/// payload alone.
pub proof fn lemma_cstr_bytes_wf(s: Seq<u8>)
    requires
        null_free_ascii(s),
    ensures
        cstr_wf(cstr_bytes(s)),
        cstr_bytes(s).take(s.len() as int) == s,
        cstr_bytes(s).len() == s.len() + 1,
{
    assert(cstr_bytes(s).take(s.len() as int) =~= s);
}

/// Marshalling never conflates two text values: distinct payloads have
/// distinct foreign-safe views.
pub proof fn lemma_cstr_bytes_injective(s1: Seq<u8>, s2: Seq<u8>)
    requires
        s1 != s2,
    ensures
        cstr_bytes(s1) != cstr_bytes(s2),
{
    if cstr_bytes(s1) == cstr_bytes(s2) {
        assert(cstr_bytes(s1).len() == s1.len() + 1);
        assert(cstr_bytes(s2).len() == s2.len() + 1);
        assert(cstr_bytes(s1).take(s1.len() as int) =~= s1);
        assert(cstr_bytes(s2).take(s2.len() as int) =~= s2);
        assert(s1 == s2);
    }
}

/// Distinct ASCII texts have distinct byte images.
pub proof fn lemma_ascii_bytes_injective(s1: Seq<char>, s2: Seq<char>)
    requires
        is_ascii_chars(s1),
        is_ascii_chars(s2),
        s1 != s2,
    ensures
        ascii_bytes(s1) != ascii_bytes(s2),
{
    if ascii_bytes(s1) == ascii_bytes(s2) {
        assert(ascii_bytes(s1).len() == s1.len());
        assert(ascii_bytes(s2).len() == s2.len());
        assert(s1.len() == s2.len());
        assert forall|i: int| 0 <= i < s1.len() implies s1[i] == s2[i] by {
            assert(ascii_bytes(s1)[i] == ascii_bytes(s2)[i]);
            let c1 = s1[i];
            let c2 = s2[i];
            assert(c1 as u8 == c2 as u8);
            assert('\0' <= c1 <= '\u{7f}');
            assert('\0' <= c2 <= '\u{7f}');
            assert((c1 as u32) < 128);
            assert((c2 as u32) < 128);
            assert(c1 as u32 == c2 as u32);
            vstd::utf8::char_u32_cast(c1, c1 as u32);
            vstd::utf8::char_u32_cast(c2, c2 as u32);
        }
        assert(s1 =~= s2);
    }
}

/// Checks that every byte of `s` is null-free ASCII.
pub fn check_null_free_ascii(s: &[u8]) -> (ok: bool)
    ensures
        ok == null_free_ascii(s@),
{
    let mut i: usize = 0;
    while i < s.len()
        invariant
            0 <= i <= s@.len(),
            forall|j: int| 0 <= j < i ==> 0 < #[trigger] s@[j] < 128,
        decreases s@.len() - i,
    {
        let b = s[i];
        if b == 0 || b >= 128 {
            return false;
        }
        i += 1;
    }
    true
}

/// Builds the foreign-safe view of a text value: validates the text and
/// appends the trailing null terminator into a fresh allocation.
///
/// Fails with the null-argument discriminant when the text is not
/// null-free ASCII, before anything crosses the boundary.
pub fn to_cstr(s: &str) -> (r: Result<Vec<u8>, crate::error::NetXFFIError>)
    ensures
        r is Ok <==> marshalable(s@),
        r matches Ok(v) ==> v@ == cstr_bytes(ascii_bytes(s@)),
        r matches Err(e) ==> e == crate::error::NetXFFIError::NullPassed,
{
    if !s.is_ascii() {
        return Err(crate::error::NetXFFIError::NullPassed);
    }
    let bytes = s.as_bytes();
    proof {
        assert(s.spec_bytes() =~= ascii_bytes(s@));
    }
    if !check_null_free_ascii(bytes) {
        return Err(crate::error::NetXFFIError::NullPassed);
    }
    let mut v: Vec<u8> = Vec::new();
    let mut i: usize = 0;
    while i < bytes.len()
        invariant
            0 <= i <= bytes@.len(),
            v@ == bytes@.take(i as int),
        decreases bytes@.len() - i,
    {
        v.push(bytes[i]);
        i += 1;
    }
    proof {
        assert(v@ =~= bytes@);
    }
    v.push(0u8);
    Ok(v)
}

/// Reads a text value back through its foreign-safe view: the payload
/// is everything before the trailing terminator, with no truncation.
pub fn read_cstr(v: &Vec<u8>) -> (r: Vec<u8>)
    requires
        cstr_wf(v@),
    ensures
        r@ == v@.take(v@.len() - 1),
{
    let mut out: Vec<u8> = Vec::new();
    let end = v.len() - 1;
    let mut i: usize = 0;
    while i < end
        invariant
            0 <= i <= end,
            end == v@.len() - 1,
            out@ == v@.take(i as int),
        decreases end - i,
    {
        out.push(v[i]);
        i += 1;
    }
    proof {
        assert(out@ =~= v@.take(v@.len() - 1));
    }
    out
}

/// The round trip law: marshalling a null-free ASCII text and reading
/// it back through the view yields the original text, and the view is
/// the original plus exactly one trailing terminator.
pub proof fn lemma_round_trip(s: Seq<u8>)
    requires
        null_free_ascii(s),
    ensures
        cstr_wf(cstr_bytes(s)),
        cstr_bytes(s).take(cstr_bytes(s).len() - 1) == s,
        cstr_bytes(s).len() == s.len() + 1,
        cstr_bytes(s)[s.len() as int] == 0u8,
{
    lemma_cstr_bytes_wf(s);
    assert(cstr_bytes(s).take(cstr_bytes(s).len() - 1) =~= s);
}

} // verus!
