//! Small verified helpers on text.
use vstd::prelude::*;
use vstd::string::StringSliceAdditionalSpecFns;
use vstd::utf8::{valid_utf8, decode_utf8, is_ascii_chars};

verus! {

/// Compares two string slices by content.
pub fn str_eq(a: &str, b: &str) -> (r: bool)
    ensures
        r == (a@ == b@),
{
    let x = a.as_bytes();
    let y = b.as_bytes();
    proof {
        vstd::utf8::encode_utf8_decode_utf8(a@);
        vstd::utf8::encode_utf8_decode_utf8(b@);
    }
    if x.len() != y.len() {
        return false;
    }
    let mut i: usize = 0;
    while i < x.len()
        invariant
            x@.len() == y@.len(),
            x@ == a.spec_bytes(),
            y@ == b.spec_bytes(),
            0 <= i <= x@.len(),
            forall|k: int| 0 <= k < i ==> x@[k] == y@[k],
        decreases x@.len() - i,
    {
        if x[i] != y[i] {
            assert(x@[i as int] != y@[i as int]);
            assert(x@ != y@);
            return false;
        }
        i = i + 1;
    }
    assert(x@ =~= y@);
    true
}

/// `core::str::from_utf8`: the bytes read as UTF-8 text, `None` exactly where
/// they are not valid UTF-8.
#[verifier::external_body]
pub(crate) fn utf8_text<'a>(bytes: &'a [u8]) -> (r: Option<&'a str>)
    ensures
        match r {
            Some(s) => valid_utf8(bytes@) && s@ == decode_utf8(bytes@),
            None => !valid_utf8(bytes@),
        },
{
    core::str::from_utf8(bytes).ok()
}

/// The character of a decimal digit.
pub open spec fn digit_char(d: int) -> char {
    (48 + d) as char
}

/// Decimal notation of a natural number.
pub open spec fn decimal(n: nat) -> Seq<char>
    decreases n,
{
    if n < 10 {
        seq![digit_char(n as int)]
    } else {
        decimal(n / 10).push(digit_char((n % 10) as int))
    }
}

/// Decimal notation of an integer, with a leading minus when negative.
pub open spec fn signed_decimal(i: int) -> Seq<char> {
    if i < 0 {
        seq!['-'] + decimal((-i) as nat)
    } else {
        decimal(i as nat)
    }
}

/// Decimal notation is plain ASCII.
proof fn lemma_decimal_ascii(n: nat)
    ensures
        is_ascii_chars(decimal(n)),
        forall|i: int| 0 <= i < decimal(n).len() ==> '0' <= #[trigger] decimal(n)[i] <= '9',
    decreases n,
{
    if n >= 10 {
        lemma_decimal_ascii(n / 10);
    }
}

/// Appends the ASCII digits of `n`.
fn push_decimal(v: &mut Vec<u8>, n: u64)
    ensures
        final(v)@.len() == old(v)@.len() + decimal(n as nat).len(),
        forall|i: int| 0 <= i < old(v)@.len() ==> #[trigger] final(v)@[i] == old(v)@[i],
        forall|i: int| 0 <= i < decimal(n as nat).len() ==>
            #[trigger] final(v)@[old(v)@.len() + i] == decimal(n as nat)[i] as u8,
    decreases n,
{
    if n >= 10 {
        push_decimal(v, n / 10);
    }
    let ghost mid = v@;
    let d = (n % 10) as u8;
    v.push(48 + d);
    proof {
        let ds = decimal(n as nat);
        if n >= 10 {
            let hs = decimal((n / 10) as nat);
            assert(ds == hs.push(digit_char((n % 10) as int)));
            assert forall|i: int| 0 <= i < ds.len() implies #[trigger] v@[old(v)@.len() + i] == ds[i] as u8 by {
                if i < hs.len() {
                    assert(v@[old(v)@.len() + i] == mid[old(v)@.len() + i]);
                }
            }
        }
    }
}

/// The text of ASCII `bytes` that spell `chars`.
fn ascii_text(bytes: &Vec<u8>, Ghost(chars): Ghost<Seq<char>>) -> (s: String)
    requires
        is_ascii_chars(chars),
        bytes@.len() == chars.len(),
        forall|i: int| 0 <= i < chars.len() ==> #[trigger] bytes@[i] == chars[i] as u8,
    ensures
        s@ == chars,
{
    proof {
        vstd::utf8::is_ascii_chars_encode_utf8(chars);
        vstd::utf8::encode_utf8_valid_utf8(chars);
        vstd::utf8::encode_utf8_decode_utf8(chars);
        assert(bytes@ =~= vstd::utf8::encode_utf8(chars));
    }
    match utf8_text(bytes.as_slice()) {
        Some(t) => t.to_owned(),
        None => String::new(),
    }
}

/// The decimal notation of `n`.
pub(crate) fn u64_text(n: u64) -> (s: String)
    ensures
        s@ == decimal(n as nat),
{
    let mut v: Vec<u8> = Vec::new();
    push_decimal(&mut v, n);
    proof {
        lemma_decimal_ascii(n as nat);
        assert forall|i: int| 0 <= i < decimal(n as nat).len() implies #[trigger] v@[i] == decimal(n as nat)[i] as u8 by {
            assert(v@[0 + i] == decimal(n as nat)[i] as u8);
        }
    }
    ascii_text(&v, Ghost(decimal(n as nat)))
}

/// The decimal notation of `n`, with a minus sign when negative.
pub(crate) fn i64_text(n: i64) -> (s: String)
    ensures
        s@ == signed_decimal(n as int),
{
    let mut v: Vec<u8> = Vec::new();
    let m: u64 = if n < 0 {
        v.push(45);
        (0 - (n as i128)) as u64
    } else {
        n as u64
    };
    let ghost before = v@;
    push_decimal(&mut v, m);
    let ghost chars = signed_decimal(n as int);
    proof {
        lemma_decimal_ascii(m as nat);
        if n < 0 {
            assert(chars == seq!['-'] + decimal(m as nat));
            assert forall|i: int| 0 <= i < chars.len() implies #[trigger] v@[i] == chars[i] as u8 by {
                if i == 0 {
                    assert(v@[0] == before[0]);
                } else {
                    assert(v@[before.len() + (i - 1)] == decimal(m as nat)[i - 1] as u8);
                }
            }
            assert forall|i: int| 0 <= i < chars.len() implies '\0' <= #[trigger] chars[i] <= '\u{7f}' by {
                if i > 0 {
                    assert(chars[i] == decimal(m as nat)[i - 1]);
                }
            }
        } else {
            assert forall|i: int| 0 <= i < chars.len() implies #[trigger] v@[i] == chars[i] as u8 by {
                assert(v@[before.len() + i] == decimal(m as nat)[i] as u8);
            }
        }
    }
    ascii_text(&v, Ghost(chars))
}

} // verus!
