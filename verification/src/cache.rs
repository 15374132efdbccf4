//! Keys of the listing cache, and what a read of the cache gives.
//!
//! The key of a listing is the text `users:`, the page in decimal, a colon,
//! and the page size in decimal. Two listings share a key only when they ask
//! for the same page of the same size.

use vstd::prelude::*;
use vstd::string::StringExecFns;

verus! {

pub open spec fn digit_char(d: nat) -> char
    recommends
        d < 10,
{
    if d == 0 {
        '0'
    } else if d == 1 {
        '1'
    } else if d == 2 {
        '2'
    } else if d == 3 {
        '3'
    } else if d == 4 {
        '4'
    } else if d == 5 {
        '5'
    } else if d == 6 {
        '6'
    } else if d == 7 {
        '7'
    } else if d == 8 {
        '8'
    } else {
        '9'
    }
}

/// The digit that a character stands for; 0 for any other character.
pub open spec fn digit_value(c: char) -> nat {
    if c == '1' {
        1
    } else if c == '2' {
        2
    } else if c == '3' {
        3
    } else if c == '4' {
        4
    } else if c == '5' {
        5
    } else if c == '6' {
        6
    } else if c == '7' {
        7
    } else if c == '8' {
        8
    } else if c == '9' {
        9
    } else {
        0
    }
}

/// The decimal digits of a natural number, most significant first, without
/// leading zeros.
pub open spec fn digits(n: nat) -> Seq<char>
    decreases n,
{
    if n < 10 {
        seq![digit_char(n)]
    } else {
        digits(n / 10).push(digit_char(n % 10))
    }
}

/// The number that a sequence of digits writes.
pub open spec fn number_of(s: Seq<char>) -> nat
    decreases s.len(),
{
    if s.len() == 0 {
        0
    } else {
        number_of(s.drop_last()) * 10 + digit_value(s.last())
    }
}

/// An integer in decimal, with a minus sign in front of a negative one.
pub open spec fn decimal(n: int) -> Seq<char> {
    if n < 0 {
        seq!['-'] + digits((-n) as nat)
    } else {
        digits(n as nat)
    }
}

pub open spec fn key_prefix() -> Seq<char> {
    seq!['u', 's', 'e', 'r', 's', ':']
}

/// The cache key of the listing of page `page` with `page_size` items.
pub open spec fn key_of(page: int, page_size: int) -> Seq<char> {
    key_prefix() + decimal(page) + seq![':'] + decimal(page_size)
}

/// Characters that a number in decimal is written with.
pub open spec fn is_decimal_char(c: char) -> bool {
    c == '-' || ('0' <= c <= '9')
}

/// Reading the digits of a number gives the number back, every digit is a
/// decimal character, and there is at least one.
pub proof fn lemma_digits(n: nat)
    ensures
        number_of(digits(n)) == n,
        digits(n).len() >= 1,
        forall|i: int| 0 <= i < digits(n).len() ==> '0' <= #[trigger] digits(n)[i] <= '9',
    decreases n,
{
    if n < 10 {
        let s = digits(n);
        assert(s.drop_last().len() == 0);
        assert(number_of(s.drop_last()) == 0);
        assert(s.last() == digit_char(n));
    } else {
        lemma_digits(n / 10);
        let s = digits(n);
        let head = digits(n / 10);
        assert(s.drop_last() =~= head);
        assert(s.last() == digit_char(n % 10));
        assert(digit_value(digit_char(n % 10)) == n % 10);
        assert forall|i: int| 0 <= i < s.len() implies '0' <= #[trigger] s[i] <= '9' by {
            if i < head.len() {
                assert(s[i] == head[i]);
            }
        }
    }
}

/// Different integers are written differently, and never with a colon.
pub proof fn lemma_decimal(a: int, b: int)
    ensures
        decimal(a) == decimal(b) ==> a == b,
        decimal(a).len() >= 1,
        forall|i: int| 0 <= i < decimal(a).len() ==> is_decimal_char(#[trigger] decimal(a)[i]),
{
    let ma: nat = if a < 0 {
        (-a) as nat
    } else {
        a as nat
    };
    let mb: nat = if b < 0 {
        (-b) as nat
    } else {
        b as nat
    };
    lemma_digits(ma);
    lemma_digits(mb);
    if decimal(a) == decimal(b) {
        assert(digits(ma)[0] != '-');
        assert(digits(mb)[0] != '-');
        if a < 0 {
            assert(decimal(a)[0] == '-');
            assert(b < 0) by {
                if b >= 0 {
                    assert(decimal(b)[0] == digits(mb)[0]);
                }
            }
            assert(decimal(a).subrange(1, decimal(a).len() as int) =~= digits(ma));
            assert(decimal(b).subrange(1, decimal(b).len() as int) =~= digits(mb));
        } else {
            assert(decimal(a)[0] == digits(ma)[0]);
            assert(b >= 0) by {
                if b < 0 {
                    assert(decimal(b)[0] == '-');
                }
            }
        }
        assert(digits(ma) == digits(mb));
        assert(ma == mb);
    }
    assert forall|i: int| 0 <= i < decimal(a).len() implies is_decimal_char(
        #[trigger] decimal(a)[i],
    ) by {
        if a < 0 {
            if i > 0 {
                assert(decimal(a)[i] == digits(ma)[i - 1]);
            }
        }
    }
}

/// Two listings have the same key only when they ask for the same page of
/// the same size.
pub proof fn lemma_key_injective(page_a: int, size_a: int, page_b: int, size_b: int)
    requires
        key_of(page_a, size_a) == key_of(page_b, size_b),
    ensures
        page_a == page_b,
        size_a == size_b,
{
    let pa = decimal(page_a);
    let pb = decimal(page_b);
    let sa = decimal(size_a);
    let sb = decimal(size_b);
    lemma_decimal(page_a, page_b);
    lemma_decimal(page_b, page_a);
    lemma_decimal(size_a, size_b);
    let ka = key_of(page_a, size_a);
    let kb = key_of(page_b, size_b);
    assert(ka.len() == 6 + pa.len() + 1 + sa.len());
    assert(kb.len() == 6 + pb.len() + 1 + sb.len());
    // The first colon behind the prefix ends the page.
    assert(ka[6 + pa.len() as int] == ':');
    assert(kb[6 + pb.len() as int] == ':');
    if pa.len() < pb.len() {
        assert(kb[6 + pa.len() as int] == pb[pa.len() as int]);
        assert(is_decimal_char(pb[pa.len() as int]));
        assert(false);
    }
    if pb.len() < pa.len() {
        assert(ka[6 + pb.len() as int] == pa[pb.len() as int]);
        assert(is_decimal_char(pa[pb.len() as int]));
        assert(false);
    }
    assert(pa =~= pb) by {
        assert forall|i: int| 0 <= i < pa.len() implies pa[i] == pb[i] by {
            assert(ka[6 + i] == pa[i]);
            assert(kb[6 + i] == pb[i]);
        }
    }
    assert(sa.len() == sb.len());
    assert(sa =~= sb) by {
        assert forall|i: int| 0 <= i < sa.len() implies sa[i] == sb[i] by {
            assert(ka[6 + pa.len() + 1 + i] == sa[i]);
            assert(kb[6 + pb.len() + 1 + i] == sb[i]);
        }
    }
}

/// The text of one decimal digit.
fn digit_text(d: u64) -> (text: &'static str)
    requires
        d < 10,
    ensures
        text@ == seq![digit_char(d as nat)],
{
    proof {
        reveal_strlit("0");
        reveal_strlit("1");
        reveal_strlit("2");
        reveal_strlit("3");
        reveal_strlit("4");
        reveal_strlit("5");
        reveal_strlit("6");
        reveal_strlit("7");
        reveal_strlit("8");
        reveal_strlit("9");
    }
    let text = if d == 0 {
        "0"
    } else if d == 1 {
        "1"
    } else if d == 2 {
        "2"
    } else if d == 3 {
        "3"
    } else if d == 4 {
        "4"
    } else if d == 5 {
        "5"
    } else if d == 6 {
        "6"
    } else if d == 7 {
        "7"
    } else if d == 8 {
        "8"
    } else {
        "9"
    };
    assert(text@ =~= seq![digit_char(d as nat)]);
    text
}

/// Appends the decimal digits of `n` to `out`.
fn push_digits(out: &mut String, n: u64)
    ensures
        final(out)@ == old(out)@ + digits(n as nat),
    decreases n,
{
    if n >= 10 {
        push_digits(out, n / 10);
    }
    out.append(digit_text(n % 10));
    assert(final(out)@ =~= old(out)@ + digits(n as nat));
}

/// Appends an integer in decimal to `out`.
fn push_decimal(out: &mut String, n: i64)
    ensures
        final(out)@ == old(out)@ + decimal(n as int),
{
    if n < 0 {
        proof {
            reveal_strlit("-");
        }
        out.append("-");
        let magnitude: u64 = if n == i64::MIN {
            9223372036854775808u64
        } else {
            (-n) as u64
        };
        push_digits(out, magnitude);
        assert(final(out)@ =~= old(out)@ + decimal(n as int));
    } else {
        push_digits(out, n as u64);
    }
}

/// The cache key of a listing. It is a function of the page and the page
/// size alone.
pub fn cache_key(page: i64, page_size: i64) -> (key: String)
    ensures
        key@ == key_of(page as int, page_size as int),
{
    proof {
        reveal_strlit("users:");
        reveal_strlit(":");
    }
    let mut key = String::from_str("users:");
    assert(key@ =~= key_prefix());
    push_decimal(&mut key, page);
    key.append(":");
    push_decimal(&mut key, page_size);
    assert(key@ =~= key_of(page as int, page_size as int));
    key
}

/// The MD5 digest of the UTF-8 encoding of a text, in lower-case
/// hexadecimal digits, as `md5` computes it.
pub uninterp spec fn md5_hex(data: Seq<char>) -> Seq<char>;

/// Calls `md5::compute` on the text and formats the digest in lower-case
/// hexadecimal. The tag depends on the text alone; the contract gives it a
/// name and claims no more.
#[verifier::external_body]
fn etag(data: &str) -> (tag: String)
    ensures
        tag@ == md5_hex(data@),
{
    format!("{:x}", md5::compute(data))
}

/// What a read of the cache gives: the value, if there is one, and a tag
/// that changes with the value.
#[derive(Debug)]
pub struct CacheResult<T> {
    pub value: Option<T>,
    pub etag: Option<String>,
}

impl<T> CacheResult<T> {
    /// A value with its tag.
    pub fn new(value: T, etag: Option<String>) -> (result: Self)
        ensures
            result.value == Some(value),
            result.etag == etag,
    {
        CacheResult { value: Some(value), etag }
    }

    /// Nothing was cached.
    pub fn empty() -> (result: Self)
        ensures
            result.value is None,
            result.etag is None,
    {
        CacheResult { value: None, etag: None }
    }
}

/// What is owed for a text read from the cache, given its tag.
pub open spec fn tagged(cached: Option<String>, result: CacheResult<String>) -> bool {
    match cached {
        Some(text) => {
            &&& result.value == Some(text)
            &&& result.etag is Some
            &&& result.etag->Some_0@ == md5_hex(text@)
        },
        None => result.value is None && result.etag is None,
    }
}

/// Turns what was read from the cache under a key into a result: a text
/// comes with the digest of the text as its tag, and nothing stays nothing.
pub fn cache_result(cached: Option<String>) -> (result: CacheResult<String>)
    ensures
        tagged(cached, result),
{
    match cached {
        Some(text) => {
            let tag = etag(text.as_str());
            CacheResult::new(text, Some(tag))
        },
        None => CacheResult::empty(),
    }
}

} // verus!
