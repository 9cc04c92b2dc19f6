//! Character-level rendering of numbers and bytes, as `{}` renders a `u64`
//! and `{:02x}` renders a `u8`.
use vstd::prelude::*;

verus! {

/// The ASCII digit for `d`, lower-case letters for ten to fifteen.
pub open spec fn digit_char(d: int) -> char {
    if d < 10 {
        (48 + d) as char
    } else {
        (87 + d) as char
    }
}

/// Decimal digits of `n`, most significant first, without leading zeros
/// (`0` is written as a single digit).
pub open spec fn decimal(n: nat) -> Seq<char>
    decreases n,
{
    if n < 10 {
        seq![digit_char(n as int)]
    } else {
        decimal(n / 10).push(digit_char((n % 10) as int))
    }
}

/// A byte as exactly two lower-case hexadecimal digits.
pub open spec fn hex_byte(b: u8) -> Seq<char> {
    seq![digit_char((b / 16) as int), digit_char((b % 16) as int)]
}

/// Each byte of `s` as two lower-case hexadecimal digits, in order.
pub open spec fn hex_bytes(s: Seq<u8>) -> Seq<char>
    decreases s.len(),
{
    if s.len() == 0 {
        Seq::empty()
    } else {
        hex_bytes(s.drop_last()) + hex_byte(s.last())
    }
}

/// The one-character text for a digit below sixteen.
fn digit_text(d: u8) -> (t: &'static str)
    requires
        d < 16,
    ensures
        t@ == seq![digit_char(d as int)],
{
    match d {
        0 => {
            proof {
                reveal_strlit("0");
            }
            "0"
        },
        1 => {
            proof {
                reveal_strlit("1");
            }
            "1"
        },
        2 => {
            proof {
                reveal_strlit("2");
            }
            "2"
        },
        3 => {
            proof {
                reveal_strlit("3");
            }
            "3"
        },
        4 => {
            proof {
                reveal_strlit("4");
            }
            "4"
        },
        5 => {
            proof {
                reveal_strlit("5");
            }
            "5"
        },
        6 => {
            proof {
                reveal_strlit("6");
            }
            "6"
        },
        7 => {
            proof {
                reveal_strlit("7");
            }
            "7"
        },
        8 => {
            proof {
                reveal_strlit("8");
            }
            "8"
        },
        9 => {
            proof {
                reveal_strlit("9");
            }
            "9"
        },
        10 => {
            proof {
                reveal_strlit("a");
            }
            "a"
        },
        11 => {
            proof {
                reveal_strlit("b");
            }
            "b"
        },
        12 => {
            proof {
                reveal_strlit("c");
            }
            "c"
        },
        13 => {
            proof {
                reveal_strlit("d");
            }
            "d"
        },
        14 => {
            proof {
                reveal_strlit("e");
            }
            "e"
        },
        _ => {
            proof {
                reveal_strlit("f");
            }
            "f"
        },
    }
}

/// Appends the decimal rendering of `n` to `out`.
pub(crate) fn push_decimal(out: &mut String, n: u64)
    ensures
        final(out)@ == old(out)@ + decimal(n as nat),
    decreases n,
{
    if n >= 10 {
        push_decimal(out, n / 10);
    }
    out.append(digit_text((n % 10) as u8));
}

/// Appends the two-digit lower-case hexadecimal rendering of `b` to `out`.
pub(crate) fn push_hex_byte(out: &mut String, b: u8)
    ensures
        final(out)@ == old(out)@ + hex_byte(b),
{
    out.append(digit_text(b / 16));
    out.append(digit_text(b % 16));
}

/// Every rendered byte takes two characters, each a digit or a letter `a`..`f`.
pub proof fn lemma_hex_bytes_len(s: Seq<u8>)
    ensures
        hex_bytes(s).len() == 2 * s.len(),
        forall|i: int|
            0 <= i < hex_bytes(s).len() ==> ('0' <= #[trigger] hex_bytes(s)[i] <= '9' || 'a'
                <= hex_bytes(s)[i] <= 'f'),
    decreases s.len(),
{
    if s.len() > 0 {
        lemma_hex_bytes_len(s.drop_last());
    }
}

/// Every character of `s` is an ASCII decimal digit.
pub open spec fn all_digits(s: Seq<char>) -> bool {
    forall|i: int| 0 <= i < s.len() ==> '0' <= #[trigger] s[i] <= '9'
}

/// The decimal rendering is a nonempty run of digits.
pub proof fn lemma_decimal_digits(n: nat)
    ensures
        decimal(n).len() >= 1,
        n >= 10 ==> decimal(n).len() >= 2,
        all_digits(decimal(n)),
    decreases n,
{
    if n >= 10 {
        lemma_decimal_digits(n / 10);
        assert forall|i: int| 0 <= i < decimal(n).len() implies '0' <= #[trigger] decimal(n)[i]
            <= '9' by {
            if i < decimal(n / 10).len() {
                assert(decimal(n)[i] == decimal(n / 10)[i]);
            }
        }
    }
}

/// Different digits below sixteen are written differently.
pub proof fn lemma_digit_char_injective(a: int, b: int)
    requires
        0 <= a < 16,
        0 <= b < 16,
        digit_char(a) == digit_char(b),
    ensures
        a == b,
{
    assert(digit_char(a) as int == if a < 10 { 48 + a } else { 87 + a });
    assert(digit_char(b) as int == if b < 10 { 48 + b } else { 87 + b });
}

/// Different numbers have different decimal renderings.
pub proof fn lemma_decimal_injective(n: nat, m: nat)
    requires
        decimal(n) == decimal(m),
    ensures
        n == m,
    decreases n,
{
    lemma_decimal_digits(n);
    lemma_decimal_digits(m);
    if n < 10 && m < 10 {
        assert(decimal(n) == seq![digit_char(n as int)]);
        assert(decimal(m) == seq![digit_char(m as int)]);
        assert(decimal(n)[0] == digit_char(n as int));
        assert(decimal(m)[0] == digit_char(m as int));
        lemma_digit_char_injective(n as int, m as int);
    } else if n >= 10 && m >= 10 {
        assert(decimal(n) == decimal(n / 10).push(digit_char((n % 10) as int)));
        assert(decimal(m) == decimal(m / 10).push(digit_char((m % 10) as int)));
        assert(decimal(n).last() == digit_char((n % 10) as int));
        assert(decimal(m).last() == digit_char((m % 10) as int));
        lemma_digit_char_injective((n % 10) as int, (m % 10) as int);
        assert(decimal(n / 10) =~= decimal(n).drop_last());
        assert(decimal(m / 10) =~= decimal(m).drop_last());
        lemma_decimal_injective(n / 10, m / 10);
    }
}

/// Different byte sequences of one length have different hexadecimal renderings.
pub proof fn lemma_hex_bytes_injective(s: Seq<u8>, t: Seq<u8>)
    requires
        s.len() == t.len(),
        hex_bytes(s) == hex_bytes(t),
    ensures
        s == t,
    decreases s.len(),
{
    if s.len() > 0 {
        lemma_hex_bytes_len(s.drop_last());
        lemma_hex_bytes_len(t.drop_last());
        let k = hex_bytes(s.drop_last()).len() as int;
        assert(hex_bytes(s) == hex_bytes(s.drop_last()) + hex_byte(s.last()));
        assert(hex_bytes(t) == hex_bytes(t.drop_last()) + hex_byte(t.last()));
        assert(hex_bytes(s)[k] == hex_byte(s.last())[0]);
        assert(hex_bytes(t)[k] == hex_byte(t.last())[0]);
        assert(hex_bytes(s)[k + 1] == hex_byte(s.last())[1]);
        assert(hex_bytes(t)[k + 1] == hex_byte(t.last())[1]);
        assert(hex_bytes(s)[k] == hex_bytes(t)[k]);
        assert(hex_bytes(s)[k + 1] == hex_bytes(t)[k + 1]);
        lemma_digit_char_injective((s.last() / 16) as int, (t.last() / 16) as int);
        lemma_digit_char_injective((s.last() % 16) as int, (t.last() % 16) as int);
        assert(hex_bytes(s.drop_last()) =~= hex_bytes(s).take(k));
        assert(hex_bytes(t.drop_last()) =~= hex_bytes(t).take(k));
        lemma_hex_bytes_injective(s.drop_last(), t.drop_last());
        assert(s =~= t.drop_last().push(t.last()));
        assert(t =~= t.drop_last().push(t.last()));
    }
}

/// A run of digits followed by a text that does not start with a digit can be
/// split in one way only.
pub proof fn lemma_split_after_digits(a: Seq<char>, x: Seq<char>, b: Seq<char>, y: Seq<char>)
    requires
        all_digits(a),
        all_digits(b),
        x.len() > 0,
        y.len() > 0,
        !('0' <= x[0] <= '9'),
        !('0' <= y[0] <= '9'),
        a + x == b + y,
    ensures
        a == b,
        x == y,
{
    if a.len() < b.len() {
        assert((a + x)[a.len() as int] == x[0]);
        assert((b + y)[a.len() as int] == b[a.len() as int]);
    } else if b.len() < a.len() {
        assert((a + x)[b.len() as int] == a[b.len() as int]);
        assert((b + y)[b.len() as int] == y[0]);
    }
    assert(a =~= (a + x).take(a.len() as int));
    assert(b =~= (b + y).take(b.len() as int));
    assert(x =~= (a + x).skip(a.len() as int));
    assert(y =~= (b + y).skip(b.len() as int));
}

/// A common prefix can be removed from both sides of an equality.
pub proof fn lemma_cancel_prefix(p: Seq<char>, x: Seq<char>, y: Seq<char>)
    requires
        p + x == p + y,
    ensures
        x == y,
{
    assert(x =~= (p + x).skip(p.len() as int));
    assert(y =~= (p + y).skip(p.len() as int));
}

/// The number a run of ASCII decimal digits stands for, read most significant first.
pub open spec fn digits_value(s: Seq<char>) -> int
    decreases s.len(),
{
    if s.len() == 0 {
        0
    } else {
        10 * digits_value(s.drop_last()) + (s.last() as int - '0' as int)
    }
}

/// `s` is how `{}` writes the number `n`: a nonempty run of ASCII digits, with no
/// leading zero unless it is the single digit `0`, that reads back as `n`.
pub open spec fn is_numeral_of(s: Seq<char>, n: int) -> bool {
    &&& s.len() >= 1
    &&& forall|i: int| 0 <= i < s.len() ==> '0' <= #[trigger] s[i] <= '9'
    &&& (s[0] == '0' ==> s.len() == 1)
    &&& digits_value(s) == n
}

/// The value of one lower-case hexadecimal digit.
pub open spec fn hex_value(c: char) -> int {
    if '0' <= c <= '9' {
        c as int - '0' as int
    } else {
        c as int - 'a' as int + 10
    }
}

/// `s` is how `{:02x}` writes each byte of `bytes`, in order: two lower-case
/// hexadecimal digits per byte, high digit first, that read back as the byte.
pub open spec fn is_hex_of(s: Seq<char>, bytes: Seq<u8>) -> bool {
    &&& s.len() == 2 * bytes.len()
    &&& forall|i: int| 0 <= i < s.len() ==> ('0' <= #[trigger] s[i] <= '9' || 'a' <= s[i] <= 'f')
    &&& forall|i: int|
        0 <= i < bytes.len() ==> 16 * hex_value(s[2 * i]) + hex_value(s[2 * i + 1])
            == #[trigger] bytes[i]
}

/// A digit below sixteen is written as a character that reads back as it.
proof fn lemma_digit_char_value(d: int)
    requires
        0 <= d < 16,
    ensures
        d < 10 ==> '0' <= digit_char(d) <= '9' && digit_char(d) as int - '0' as int == d,
        10 <= d ==> 'a' <= digit_char(d) <= 'f',
        hex_value(digit_char(d)) == d,
{
    assert(digit_char(d) as int == if d < 10 { 48 + d } else { 87 + d });
}

/// `decimal(n)` is the base-10 numeral of `n`, as `{}` writes it.
pub proof fn lemma_decimal_is_numeral(n: nat)
    ensures
        is_numeral_of(decimal(n), n as int),
    decreases n,
{
    lemma_decimal_digits(n);
    lemma_digit_char_value((n % 10) as int);
    if n < 10 {
        assert(decimal(n) == seq![digit_char(n as int)]);
        assert(decimal(n).drop_last() =~= Seq::<char>::empty());
        assert(digits_value(decimal(n).drop_last()) == 0);
    } else {
        lemma_decimal_is_numeral(n / 10);
        let d = decimal(n);
        assert(d == decimal(n / 10).push(digit_char((n % 10) as int)));
        assert(d.drop_last() =~= decimal(n / 10));
        assert(d[0] == decimal(n / 10)[0]);
        lemma_decimal_digits(n / 10);
        if d[0] == '0' {
            if n / 10 < 10 {
                assert(decimal(n / 10) == seq![digit_char((n / 10) as int)]);
                lemma_digit_char_value((n / 10) as int);
            }
        }
    }
}

/// `hex_byte(b)` is the two-digit lower-case base-16 numeral of `b`.
pub proof fn lemma_hex_byte_reads_back(b: u8)
    ensures
        is_hex_of(hex_byte(b), seq![b]),
{
    lemma_digit_char_value((b / 16) as int);
    lemma_digit_char_value((b % 16) as int);
    let h = hex_byte(b);
    assert(h[0] == digit_char((b / 16) as int));
    assert(h[1] == digit_char((b % 16) as int));
    assert(seq![b][0] == b);
}

/// `hex_bytes(s)` writes every byte of `s`, in order, as its two-digit lower-case
/// base-16 numeral.
pub proof fn lemma_hex_bytes_reads_back(s: Seq<u8>)
    ensures
        is_hex_of(hex_bytes(s), s),
    decreases s.len(),
{
    if s.len() > 0 {
        lemma_hex_bytes_reads_back(s.drop_last());
        lemma_hex_byte_reads_back(s.last());
        let p = hex_bytes(s.drop_last());
        let q = hex_byte(s.last());
        let h = hex_bytes(s);
        assert(h == p + q);
        assert forall|i: int| 0 <= i < h.len() implies ('0' <= #[trigger] h[i] <= '9' || 'a'
            <= h[i] <= 'f') by {
            if i < p.len() {
                assert(h[i] == p[i]);
            } else {
                assert(h[i] == q[i - p.len()]);
            }
        }
        assert forall|i: int| 0 <= i < s.len() implies 16 * hex_value(h[2 * i]) + hex_value(
            h[2 * i + 1],
        ) == #[trigger] s[i] by {
            if i < s.len() - 1 {
                assert(s.drop_last()[i] == s[i]);
                assert(h[2 * i] == p[2 * i]);
                assert(h[2 * i + 1] == p[2 * i + 1]);
            } else {
                assert(h[2 * i] == q[0]);
                assert(h[2 * i + 1] == q[1]);
                assert(seq![s.last()][0] == s[i]);
            }
        }
    }
}

} // verus!
