//! Nul-terminated UTF-16 strings, as the native text interfaces take them.

use vstd::prelude::*;

verus! {

/// The UTF-16 code units of one character: one unit below the supplementary
/// planes, a surrogate pair above them.
pub open spec fn utf16_units_of_char(c: char) -> Seq<u16> {
    let cp = c as int;
    if cp < 0x10000 {
        seq![cp as u16]
    } else {
        seq![
            (0xd800 + (cp - 0x10000) / 0x400) as u16,
            (0xdc00 + (cp - 0x10000) % 0x400) as u16,
        ]
    }
}

/// The UTF-16 encoding of a character sequence, character by character.
pub open spec fn utf16_encode(s: Seq<char>) -> Seq<u16>
    decreases s.len(),
{
    if s.len() == 0 {
        Seq::<u16>::empty()
    } else {
        utf16_units_of_char(s[0]) + utf16_encode(s.skip(1))
    }
}

/// The unit sequence with the terminator a C interface requires:
/// a nul is appended unless the final unit already is one.
pub open spec fn with_nul_terminator(u: Seq<u16>) -> Seq<u16> {
    if u.len() > 0 && u[u.len() - 1] == 0 {
        u
    } else {
        u.push(0)
    }
}

/// Whether a unit sequence holds a nul anywhere but the final position.
pub open spec fn has_interior_nul(u: Seq<u16>) -> bool {
    exists|i: int| 0 <= i < u.len() - 1 && u[i] == 0
}

/// Why a string could not be turned into a wide C string.
#[derive(Clone, Copy, Debug, PartialEq, Eq, Structural)]
pub enum WideStringError {
    InteriorNul,
}

/// Relies on widestring::U16CString::from_str and into_vec_with_nul: the
/// string is encoded as UTF-16 and nul-terminated, and a nul unit anywhere
/// but the final position is refused.
#[verifier::external_body]
fn wide_c_units(s: &str) -> (r: Option<Vec<u16>>)
    ensures
        r is Some <==> !has_interior_nul(utf16_encode(s@)),
        r is Some ==> r->0@ == with_nul_terminator(utf16_encode(s@)),
{
    widestring::U16CString::from_str(s).ok().map(|c| c.into_vec_with_nul())
}

/// A nul-terminated UTF-16 string ready to hand to a native text call.
#[derive(Clone, Debug, PartialEq, Eq)]
pub struct WideCString {
    units: Vec<u16>,
}

impl WideCString {
    /// The unit sequence, terminator included.
    pub closed spec fn view(&self) -> Seq<u16> {
        self.units@
    }

    /// The string always ends in exactly one nul unit.
    pub open spec fn wf(&self) -> bool {
        &&& self@.len() > 0
        &&& self@[self@.len() - 1] == 0
        &&& !has_interior_nul(self@)
    }

    /// Encodes a string as nul-terminated UTF-16. A string whose encoding
    /// holds a nul unit before the final position is refused.
    pub fn from_str(s: &str) -> (r: Result<WideCString, WideStringError>)
        ensures
            r is Ok <==> !has_interior_nul(utf16_encode(s@)),
            r is Ok ==> r->Ok_0@ == with_nul_terminator(utf16_encode(s@)),
            r is Ok ==> r->Ok_0.wf(),
            r is Err ==> r->Err_0 == WideStringError::InteriorNul,
    {
        match wide_c_units(s) {
            Some(units) => {
                let w = WideCString { units };
                proof {
                    let u = utf16_encode(s@);
                    assert(w@ == with_nul_terminator(u));
                    assert(w@[w@.len() - 1] == 0);
                    if has_interior_nul(w@) {
                        let i = choose|i: int| 0 <= i < w@.len() - 1 && w@[i] == 0;
                        if u.len() > 0 && u[u.len() - 1] == 0 {
                            assert(u[i] == 0 && i < u.len() - 1);
                        } else {
                            assert(w@[i] == u[i]);
                            assert(i < u.len());
                            if i < u.len() - 1 {
                                assert(has_interior_nul(u));
                            } else {
                                assert(u[u.len() - 1] == 0);
                            }
                        }
                    }
                }
                Ok(w)
            },
            None => Err(WideStringError::InteriorNul),
        }
    }

    /// The number of units before the terminator.
    pub fn len(&self) -> (r: usize)
        requires
            self.wf(),
        ensures
            r + 1 == self@.len(),
    {
        self.units.len() - 1
    }

    /// The number of units before the terminator, as the 32-bit count the
    /// native text calls take.
    pub fn len_u32(&self) -> (r: u32)
        requires
            self.wf(),
            self@.len() - 1 <= u32::MAX,
        ensures
            r + 1 == self@.len(),
    {
        (self.units.len() - 1) as u32
    }

    /// The units, terminator included.
    pub fn as_units(&self) -> (r: &Vec<u16>)
        ensures
            r@ == self@,
    {
        &self.units
    }
}

/// Every character of a string free of nul characters encodes to units that
/// are all non-zero.
pub proof fn lemma_utf16_encode_nul_free(s: Seq<char>)
    requires
        !s.contains('\0'),
    ensures
        forall|i: int| 0 <= i < utf16_encode(s).len() ==> utf16_encode(s)[i] != 0,
    decreases s.len(),
{
    if s.len() > 0 {
        let c = s[0];
        assert(s.contains(c));
        assert(c != '\0');
        let head = utf16_units_of_char(c);
        let cp = c as int;
        vstd::utf8::char_is_scalar(c);
        vstd::utf8::char_u32_cast(c, c as u32);
        vstd::utf8::char_u32_cast('\0', '\0' as u32);
        assert(cp == c as u32);
        assert(0 <= cp <= 0x10ffff);
        assert(cp != 0) by {
            if c as u32 == 0 {
                assert('\0' as u32 == 0);
                assert((c as u32) as char == c);
                assert(c == '\0');
            }
        }
        assert(forall|i: int| 0 <= i < head.len() ==> head[i] != 0) by {
            if cp < 0x10000 {
                assert(head =~= seq![cp as u16]);
                assert(cp as u16 == cp);
            } else {
                let hi = 0xd800 + (cp - 0x10000) / 0x400;
                let lo = 0xdc00 + (cp - 0x10000) % 0x400;
                assert(0 <= cp - 0x10000 <= 0xfffff);
                assert(0xd800 <= hi <= 0xdbff) by (nonlinear_arith)
                    requires 0 <= cp - 0x10000 <= 0xfffff, hi == 0xd800 + (cp - 0x10000) / 0x400;
                assert(0xdc00 <= lo <= 0xdfff) by (nonlinear_arith)
                    requires 0 <= cp - 0x10000 <= 0xfffff, lo == 0xdc00 + (cp - 0x10000) % 0x400;
                assert(head =~= seq![hi as u16, lo as u16]);
                assert(hi as u16 == hi);
                assert(lo as u16 == lo);
            }
        }
        let tail = s.skip(1);
        assert(forall|j: int| 0 <= j < tail.len() ==> #[trigger] tail[j] == s[j + 1]);
        assert(!tail.contains('\0')) by {
            if tail.contains('\0') {
                let j = choose|j: int| 0 <= j < tail.len() && tail[j] == '\0';
                assert(s[j + 1] == '\0');
                assert(s.contains('\0'));
            }
        }
        lemma_utf16_encode_nul_free(tail);
        assert(forall|i: int|
            0 <= i < utf16_encode(s).len() ==> utf16_encode(s)[i] != 0) by {
            assert(utf16_encode(s) == head + utf16_encode(tail));
        }
    }
}

/// The UTF-16 encoding of a string takes at least one and at most two units
/// per character.
pub proof fn lemma_utf16_encode_len(s: Seq<char>)
    ensures
        s.len() <= utf16_encode(s).len() <= 2 * s.len(),
    decreases s.len(),
{
    if s.len() > 0 {
        lemma_utf16_encode_len(s.skip(1));
    }
}

/// A string without nul characters always has a wide form, and its unit
/// count is the encoding's length plus the terminator.
pub proof fn lemma_nul_free_str_has_wide_form(s: Seq<char>)
    requires
        !s.contains('\0'),
    ensures
        !has_interior_nul(utf16_encode(s)),
        with_nul_terminator(utf16_encode(s)).len() == utf16_encode(s).len() + 1,
{
    lemma_utf16_encode_nul_free(s);
    let u = utf16_encode(s);
    if u.len() > 0 {
        assert(u[u.len() - 1] != 0);
    }
}

} // verus!
