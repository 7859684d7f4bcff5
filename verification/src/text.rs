use vstd::prelude::*;
use vstd::string::*;

verus! {

/// The character of a decimal digit.
pub open spec fn digit_char(d: nat) -> char
    recommends
        d < 10,
{
    (48 + d) as char
}

/// The decimal rendering of a natural number, most significant digit
/// first, without leading zeros (`0` is rendered as `"0"`).
pub open spec fn decimal(n: nat) -> Seq<char>
    decreases n,
{
    if n < 10 {
        seq![digit_char(n)]
    } else {
        decimal(n / 10).push(digit_char(n % 10))
    }
}

/// An ASCII decimal digit byte.
pub open spec fn is_digit_byte(b: u8) -> bool {
    0x30 <= b <= 0x39
}

/// The value of a run of ASCII decimal digits.
pub open spec fn digits_value(d: Seq<u8>) -> nat
    decreases d.len(),
{
    if d.len() == 0 {
        0
    } else {
        digits_value(d.drop_last()) * 10 + (d.last() - 0x30) as nat
    }
}

/// The bytes that `str::parse::<u32>` reads as digits: all of them, but
/// for one leading `+`.
pub open spec fn unsigned_digits(b: Seq<u8>) -> Seq<u8> {
    if b.len() > 0 && b[0] == 0x2b {
        b.drop_first()
    } else {
        b
    }
}

/// A non-empty run of ASCII digits whose value fits in a `u32`.
pub open spec fn is_u32_digits(d: Seq<u8>) -> bool {
    &&& d.len() > 0
    &&& forall|i: int| 0 <= i < d.len() ==> is_digit_byte(#[trigger] d[i])
    &&& digits_value(d) <= u32::MAX
}

/// What `str::parse::<u32>` gives for text with these UTF-8 bytes: an
/// optional leading `+`, then one or more ASCII digits whose value fits in
/// a `u32`; anything else is refused.
pub open spec fn parse_u32_spec(b: Seq<u8>) -> Option<u32> {
    if is_u32_digits(unsigned_digits(b)) {
        Some(digits_value(unsigned_digits(b)) as u32)
    } else {
        None
    }
}

/// A longer run of digits never has a smaller value.
pub proof fn lemma_digits_value_prefix(d: Seq<u8>, k: int)
    requires
        0 <= k <= d.len(),
        forall|i: int| 0 <= i < d.len() ==> is_digit_byte(#[trigger] d[i]),
    ensures
        digits_value(d.subrange(0, k)) <= digits_value(d),
    decreases d.len() - k,
{
    if k < d.len() {
        lemma_digits_value_prefix(d, k + 1);
        let p = d.subrange(0, k + 1);
        assert(p.drop_last() =~= d.subrange(0, k));
        assert(is_digit_byte(d[k]));
    } else {
        assert(d.subrange(0, k) =~= d);
    }
}

/// The bytes of ASCII text, one per character.
pub open spec fn ascii_bytes(s: Seq<char>) -> Seq<u8> {
    s.map_values(|c: char| c as u8)
}

/// The decimal rendering of `n` reads back as `n`: it is a run of ASCII
/// digits whose value is `n`, with no leading zero.
pub proof fn law_decimal_reads_back(n: nat)
    ensures
        ascii_bytes(decimal(n)).len() >= 1,
        forall|i: int|
            0 <= i < ascii_bytes(decimal(n)).len() ==> is_digit_byte(
                #[trigger] ascii_bytes(decimal(n))[i],
            ),
        digits_value(ascii_bytes(decimal(n))) == n,
        ascii_bytes(decimal(n)).len() > 1 ==> ascii_bytes(decimal(n))[0] != 0x30,
    decreases n,
{
    let b = ascii_bytes(decimal(n));
    if n < 10 {
        assert(b[0] == (48 + n) as u8);
        assert(b.drop_last() =~= Seq::<u8>::empty());
        assert(b.last() == b[0]);
        assert(digits_value(b.drop_last()) == 0);
        assert(digits_value(b) == digits_value(b.drop_last()) * 10 + (b.last() - 0x30) as nat);
        assert(digits_value(b) == n);
    } else {
        law_decimal_reads_back(n / 10);
        let a = ascii_bytes(decimal(n / 10));
        assert(b.drop_last() =~= a);
        assert(b.last() == (48 + n % 10) as u8);
        assert(digits_value(b) == digits_value(a) * 10 + n % 10);
        assert(digits_value(b) == n);
        assert forall|i: int| 0 <= i < b.len() implies is_digit_byte(#[trigger] b[i]) by {
            if i < a.len() {
                assert(b[i] == a[i]);
            }
        }
        assert(b[0] == a[0]);
        if a.len() == 1 {
            assert(a.drop_last() =~= Seq::<u8>::empty());
            assert(a.last() == a[0]);
            assert(digits_value(a.drop_last()) == 0);
            assert(digits_value(a) == digits_value(a.drop_last()) * 10 + (a.last() - 0x30) as nat);
            assert(a[0] != 0x30);
        }
    }
}

/// Reading the decimal rendering of a `u32` as `str::parse::<u32>` does
/// gives the number back.
pub proof fn law_parse_decimal_round_trip(n: u32)
    ensures
        parse_u32_spec(ascii_bytes(decimal(n as nat))) == Some(n),
{
    law_decimal_reads_back(n as nat);
    let b = ascii_bytes(decimal(n as nat));
    assert(is_digit_byte(b[0]));
    assert(unsigned_digits(b) == b);
}

fn digit_str(d: u32) -> (r: &'static str)
    requires
        d < 10,
    ensures
        r@ == seq![digit_char(d as nat)],
{
    proof {
        reveal_strlit("0");
        reveal_strlit("1");
        reveal_strlit("2");
        reveal_strlit("3");
        reveal_strlit("4");
        reveal_strlit("5");
        reveal_strlit("6");
        reveal_strlit("7");
        reveal_strlit("8");
        reveal_strlit("9");
    }
    if d == 0 {
        "0"
    } else if d == 1 {
        "1"
    } else if d == 2 {
        "2"
    } else if d == 3 {
        "3"
    } else if d == 4 {
        "4"
    } else if d == 5 {
        "5"
    } else if d == 6 {
        "6"
    } else if d == 7 {
        "7"
    } else if d == 8 {
        "8"
    } else {
        "9"
    }
}

/// Appends the decimal rendering of `n` to `out`.
pub fn push_decimal(out: &mut String, n: u32)
    ensures
        final(out)@ == old(out)@ + decimal(n as nat),
    decreases n,
{
    if n >= 10 {
        push_decimal(out, n / 10);
    }
    let d = digit_str(n % 10);
    out.append(d);
    proof {
        if n >= 10 {
            assert(decimal(n as nat) == decimal((n / 10) as nat).push(digit_char((n % 10) as nat)));
        }
    }
    assert(final(out)@ =~= old(out)@ + decimal(n as nat));
}

/// Parses text as `str::parse::<u32>` does (see `parse_u32_spec`).
pub fn parse_u32(text: &str) -> (res: Option<u32>)
    ensures
        res == parse_u32_spec(text.spec_bytes()),
{
    let b = text.as_bytes();
    let n = b.len();
    let start: usize = if n > 0 && b[0] == 0x2b {
        1
    } else {
        0
    };
    let ghost d = unsigned_digits(b@);
    assert(d =~= b@.subrange(start as int, n as int));
    if start >= n {
        return None;
    }
    let mut value: u32 = 0;
    let mut i: usize = start;
    while i < n
        invariant
            b@ == text.spec_bytes(),
            n == b@.len(),
            start <= i <= n,
            d =~= b@.subrange(start as int, n as int),
            d == unsigned_digits(b@),
            forall|j: int| start <= j < i ==> is_digit_byte(#[trigger] b@[j]),
            value == digits_value(b@.subrange(start as int, i as int)),
        decreases n - i,
    {
        let c = b[i];
        if c < 0x30 || c > 0x39 {
            assert(!is_digit_byte(d[i - start]));
            assert(parse_u32_spec(b@) is None);
            return None;
        }
        let ghost prefix = b@.subrange(start as int, i + 1);
        assert(prefix.drop_last() =~= b@.subrange(start as int, i as int));
        match value.checked_mul(10) {
            None => {
                proof {
                    assert(digits_value(prefix) > u32::MAX);
                    assert(prefix =~= d.subrange(0, i + 1 - start));
                    if forall|j: int| 0 <= j < d.len() ==> is_digit_byte(#[trigger] d[j]) {
                        lemma_digits_value_prefix(d, i + 1 - start);
                    }
                    assert(parse_u32_spec(b@) is None);
                }
                return None;
            },
            Some(v10) => match v10.checked_add((c - 0x30) as u32) {
                None => {
                    proof {
                        assert(digits_value(prefix) > u32::MAX);
                        assert(prefix =~= d.subrange(0, i + 1 - start));
                        if forall|j: int| 0 <= j < d.len() ==> is_digit_byte(#[trigger] d[j]) {
                            lemma_digits_value_prefix(d, i + 1 - start);
                        }
                        assert(parse_u32_spec(b@) is None);
                    }
                    return None;
                },
                Some(v) => {
                    value = v;
                },
            },
        }
        i = i + 1;
    }
    assert(b@.subrange(start as int, n as int) =~= d);
    assert forall|j: int| 0 <= j < d.len() implies is_digit_byte(#[trigger] d[j]) by {
        assert(d[j] == b@[start + j]);
    }
    Some(value)
}

} // verus!
