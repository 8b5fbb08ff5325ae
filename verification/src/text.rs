//! Text as the broker reads it: equality, decimal numbers and surrounding white space.

use vstd::prelude::*;

verus! {

/// The characters with the Unicode property `White_Space`.
pub open spec fn is_white_space(c: char) -> bool {
    let n = c as int;
    ||| 0x09 <= n <= 0x0d
    ||| n == 0x20
    ||| n == 0x85
    ||| n == 0xa0
    ||| n == 0x1680
    ||| 0x2000 <= n <= 0x200a
    ||| n == 0x2028
    ||| n == 0x2029
    ||| n == 0x202f
    ||| n == 0x205f
    ||| n == 0x3000
}

/// `s` without its leading white space.
pub open spec fn trimmed_start(s: Seq<char>) -> Seq<char>
    decreases s.len(),
{
    if s.len() > 0 && is_white_space(s[0]) {
        trimmed_start(s.drop_first())
    } else {
        s
    }
}

/// `s` without its trailing white space.
pub open spec fn trimmed_end(s: Seq<char>) -> Seq<char>
    decreases s.len(),
{
    if s.len() > 0 && is_white_space(s.last()) {
        trimmed_end(s.drop_last())
    } else {
        s
    }
}

/// `s` without its leading and trailing white space.
pub open spec fn trimmed(s: Seq<char>) -> Seq<char> {
    trimmed_end(trimmed_start(s))
}

/// `str::trim` removes the leading and trailing white space of a string, where white space is
/// what carries the Unicode property `White_Space`.
pub assume_specification[ str::trim ](s: &str) -> (r: &str)
    ensures
        r@ == trimmed(s@),
;

/// A string that neither starts nor ends in white space is its own trimmed form.
pub proof fn trimmed_keeps_tight_text(s: Seq<char>)
    requires
        s.len() > 0 ==> !is_white_space(s[0]) && !is_white_space(s.last()),
    ensures
        trimmed(s) == s,
{
}

/// White space around a string does not reach its trimmed form.
pub proof fn trimmed_drops_surrounding(before: Seq<char>, s: Seq<char>, after: Seq<char>)
    requires
        s.len() > 0 && !is_white_space(s[0]) && !is_white_space(s.last()),
        forall|i: int| 0 <= i < before.len() ==> is_white_space(#[trigger] before[i]),
        forall|i: int| 0 <= i < after.len() ==> is_white_space(#[trigger] after[i]),
    ensures
        trimmed(before + s + after) == s,
    decreases before.len() + after.len(),
{
    let whole = before + s + after;
    if before.len() > 0 {
        assert(whole[0] == before[0]);
        assert(whole.drop_first() =~= before.drop_first() + s + after);
        trimmed_drops_surrounding(before.drop_first(), s, after);
    } else if after.len() > 0 {
        assert(whole[0] == s[0]);
        assert(whole.last() == after.last());
        assert(whole.drop_last() =~= before + s + after.drop_last());
        assert((before + s + after.drop_last())[0] == s[0]);
        trimmed_drops_surrounding(before, s, after.drop_last());
    } else {
        assert(whole =~= s);
    }
}

/// Text that is white space throughout trims to nothing.
pub proof fn trimmed_blank_is_empty(s: Seq<char>)
    requires
        forall|i: int| 0 <= i < s.len() ==> is_white_space(#[trigger] s[i]),
    ensures
        trimmed(s).len() == 0,
    decreases s.len(),
{
    if s.len() > 0 {
        trimmed_blank_is_empty(s.drop_first());
    }
}

/// Trimming keeps the middle of a text: what it drops in front and behind is white space, and what
/// it keeps neither starts nor ends in white space.
pub proof fn trimmed_is_the_tight_middle(s: Seq<char>)
    ensures
        exists|a: int, b: int|
            {
                &&& 0 <= a <= b <= s.len()
                &&& trimmed(s) == #[trigger] s.subrange(a, b)
                &&& forall|i: int| 0 <= i < a ==> is_white_space(#[trigger] s[i])
                &&& forall|i: int| b <= i < s.len() ==> is_white_space(#[trigger] s[i])
            },
        trimmed(s).len() > 0 ==> !is_white_space(trimmed(s)[0]) && !is_white_space(
            trimmed(s).last(),
        ),
{
    let a = lemma_trimmed_start(s);
    let rest = trimmed_start(s);
    let n = lemma_trimmed_end(rest);
    assert(trimmed(s) =~= s.subrange(a, a + n));
    assert forall|i: int| a + n <= i < s.len() implies is_white_space(#[trigger] s[i]) by {
        assert(rest[i - a] == s[i]);
    }
}

/// Where trimming in front stops.
proof fn lemma_trimmed_start(s: Seq<char>) -> (a: int)
    ensures
        0 <= a <= s.len(),
        trimmed_start(s) == s.skip(a),
        forall|i: int| 0 <= i < a ==> is_white_space(#[trigger] s[i]),
        a < s.len() ==> !is_white_space(s[a]),
    decreases s.len(),
{
    if s.len() > 0 && is_white_space(s[0]) {
        let a = lemma_trimmed_start(s.drop_first());
        assert(s.drop_first().skip(a) =~= s.skip(a + 1));
        assert forall|i: int| 0 <= i < a + 1 implies is_white_space(#[trigger] s[i]) by {
            if i > 0 {
                assert(s.drop_first()[i - 1] == s[i]);
            }
        }
        a + 1
    } else {
        assert(s.skip(0) =~= s);
        0
    }
}

/// Where trimming behind stops.
proof fn lemma_trimmed_end(s: Seq<char>) -> (n: int)
    ensures
        0 <= n <= s.len(),
        trimmed_end(s) == s.take(n),
        forall|i: int| n <= i < s.len() ==> is_white_space(#[trigger] s[i]),
        n > 0 ==> !is_white_space(s[n - 1]),
    decreases s.len(),
{
    if s.len() > 0 && is_white_space(s.last()) {
        let n = lemma_trimmed_end(s.drop_last());
        assert(s.drop_last().take(n) =~= s.take(n));
        assert forall|i: int| n <= i < s.len() implies is_white_space(#[trigger] s[i]) by {
            if i < s.len() - 1 {
                assert(s.drop_last()[i] == s[i]);
            }
        }
        n
    } else {
        assert(s.take(s.len() as int) =~= s);
        s.len() as int
    }
}

/// Nothing is left of a text exactly where it is white space throughout.
pub proof fn trimmed_is_empty_where_blank(s: Seq<char>)
    ensures
        trimmed(s).len() == 0 <==> forall|i: int|
            0 <= i < s.len() ==> is_white_space(#[trigger] s[i]),
{
    if forall|i: int| 0 <= i < s.len() ==> is_white_space(#[trigger] s[i]) {
        trimmed_blank_is_empty(s);
    }
    trimmed_is_the_tight_middle(s);
}

/// The white space of ASCII is the tab, the four line and page breaks, and the space; beyond it
/// are the seventeen other spaces of Unicode and its two separators of lines and paragraphs.
pub proof fn white_space_is_what_separates(c: char)
    ensures
        (c as u32) < 0x80 ==> (is_white_space(c) <==> {
            ||| c == '\t'
            ||| c == '\n'
            ||| c as u32 == 0x0b
            ||| c as u32 == 0x0c
            ||| c == '\r'
            ||| c == ' '
        }),
        (c as u32) >= 0x80 ==> (is_white_space(c) <==> seq![
            0x85u32,
            0xa0,
            0x1680,
            0x2000,
            0x2001,
            0x2002,
            0x2003,
            0x2004,
            0x2005,
            0x2006,
            0x2007,
            0x2008,
            0x2009,
            0x200a,
            0x2028,
            0x2029,
            0x202f,
            0x205f,
            0x3000,
        ].contains(c as u32)),
{
    let list = seq![
        0x85u32,
        0xa0,
        0x1680,
        0x2000,
        0x2001,
        0x2002,
        0x2003,
        0x2004,
        0x2005,
        0x2006,
        0x2007,
        0x2008,
        0x2009,
        0x200a,
        0x2028,
        0x2029,
        0x202f,
        0x205f,
        0x3000,
    ];
    if c as u32 >= 0x80 && is_white_space(c) {
        let n = c as u32;
        if 0x2000 <= n <= 0x200a {
            assert(list[n - 0x2000 + 3] == n);
        } else if n == 0x85 {
            assert(list[0] == n);
        } else if n == 0xa0 {
            assert(list[1] == n);
        } else if n == 0x1680 {
            assert(list[2] == n);
        } else if n == 0x2028 {
            assert(list[14] == n);
        } else if n == 0x2029 {
            assert(list[15] == n);
        } else if n == 0x202f {
            assert(list[16] == n);
        } else if n == 0x205f {
            assert(list[17] == n);
        } else {
            assert(list[18] == n);
        }
    }
}

/// Whether two strings hold the same characters.
pub fn same_text(a: &str, b: &str) -> (same: bool)
    ensures
        same == (a@ == b@),
{
    a.to_owned() == b.to_owned()
}

/// The decimal digit that stands for `d`.
pub open spec fn digit(d: nat) -> char {
    (48 + d) as char
}

/// The number `n` written in decimal, without leading zeros.
pub open spec fn decimal(n: nat) -> Seq<char>
    decreases n,
{
    if n < 10 {
        seq![digit(n)]
    } else {
        decimal(n / 10).push(digit(n % 10))
    }
}

/// The one-character string of a decimal digit.
fn digit_text(d: u32) -> (r: &'static str)
    requires
        d < 10,
    ensures
        r@ == seq![digit(d as nat)],
{
    let all = "0123456789";
    proof {
        reveal_strlit("0123456789");
    }
    let r = all.substring_char(d as usize, d as usize + 1);
    assert(r@ =~= seq![digit(d as nat)]);
    r
}

/// Writes `n` in decimal.
pub fn decimal_text(n: u32) -> (r: String)
    ensures
        r@ == decimal(n as nat),
    decreases n,
{
    if n < 10 {
        digit_text(n).to_owned()
    } else {
        let mut r = decimal_text(n / 10);
        r.append(digit_text(n % 10));
        assert(r@ =~= decimal(n as nat));
        r
    }
}

/// The value of a decimal digit.
pub open spec fn digit_value(c: char) -> Option<nat> {
    if '0' <= c <= '9' {
        Some((c as int - 48) as nat)
    } else {
        None
    }
}

/// The value of a decimal digit.
pub fn value_of_digit(c: char) -> (r: Option<u8>)
    ensures
        r is Some == digit_value(c) is Some,
        r matches Some(v) ==> v < 10 && v as nat == digit_value(c)->0 && c == digit(v as nat),
{
    if '0' <= c && c <= '9' {
        Some((c as u32 - 48) as u8)
    } else {
        None
    }
}

/// Whether `s` is made of decimal digits.
pub open spec fn all_digits(s: Seq<char>) -> bool {
    forall|i: int| 0 <= i < s.len() ==> digit_value(#[trigger] s[i]) is Some
}

/// The number that a sequence of decimal digits writes down.
pub open spec fn digits_value(s: Seq<char>) -> nat
    decreases s.len(),
{
    if s.len() == 0 {
        0
    } else {
        digits_value(s.drop_last()) * 10 + digit_value(s.last())->0
    }
}

/// `s` without a leading plus sign.
pub open spec fn unsigned_part(s: Seq<char>) -> Seq<char> {
    if s.len() > 0 && s[0] == '+' {
        s.drop_first()
    } else {
        s
    }
}

/// The number that `s` writes down: decimal digits, at least one, after an optional plus sign.
/// Leading zeros count for nothing.
pub open spec fn number_value(s: Seq<char>) -> Option<nat> {
    let digits = unsigned_part(s);
    if digits.len() > 0 && all_digits(digits) {
        Some(digits_value(digits))
    } else {
        None
    }
}

/// Reads the number that stands in `s` from character `start` on, where it is at most `limit`.
pub(crate) fn number_up_to(s: &str, start: usize, limit: u32) -> (r: Option<u32>)
    requires
        start <= s@.len(),
    ensures
        r matches Some(v) ==> v <= limit && number_value(s@.skip(start as int)) == Some(v as nat),
        r is None ==> (number_value(s@.skip(start as int)) matches Some(v) ==> v > limit),
{
    let len = s.unicode_len();
    let ghost rest = s@.skip(start as int);
    let ghost digits = unsigned_part(rest);
    let mut i: usize = start;
    if i < len && s.get_char(i) == '+' {
        i = i + 1;
    }
    let first = i;
    assert(digits =~= s@.skip(first as int));
    if first == len {
        return None;
    }
    let mut value: u64 = 0;
    let over: u64 = limit as u64 + 1;
    while i < len
        invariant
            first <= i <= len,
            len == s@.len(),
            over == limit + 1,
            value <= over,
            digits == s@.skip(first as int),
            digits == unsigned_part(s@.skip(start as int)),
            all_digits(digits.take(i - first)),
            value < over ==> digits_value(digits.take(i - first)) == value,
            value == over ==> digits_value(digits.take(i - first)) > limit,
        decreases len - i,
    {
        let c = s.get_char(i);
        assert(digits[i - first] == c);
        match value_of_digit(c) {
            Some(d) => {
                proof {
                    let next = digits.take(i - first + 1);
                    assert(next.drop_last() =~= digits.take(i - first));
                    assert(next.last() == c);
                    assert forall|j: int| 0 <= j < next.len() implies digit_value(
                        #[trigger] next[j],
                    ) is Some by {
                        if j < next.len() - 1 {
                            assert(next[j] == digits.take(i - first)[j]);
                        }
                    }
                }
                if value < over {
                    let sum: u64 = value * 10 + d as u64;
                    value = if sum > over {
                        over
                    } else {
                        sum
                    };
                }
            },
            None => {
                assert(!all_digits(digits));
                return None;
            },
        }
        i = i + 1;
    }
    assert(digits.take(i - first) =~= digits);
    if value < over {
        Some(value as u32)
    } else {
        None
    }
}

/// A number written in decimal reads back as that number.
pub proof fn decimal_reads_back(n: nat)
    ensures
        number_value(decimal(n)) == Some(n),
{
    lemma_decimal_digits(n);
    assert(decimal(n)[0] != '+');
}

/// A number in decimal starts with a zero only where it is zero, and its last character is the
/// digit of its remainder by ten.
pub proof fn decimal_is_tight(n: nat)
    ensures
        decimal(n).len() > 0,
        n > 0 ==> decimal(n)[0] != '0',
        decimal(0) == seq!['0'],
        decimal(n).last() as int == 48 + n % 10,
    decreases n,
{
    if n >= 10 {
        decimal_is_tight(n / 10);
    }
}

/// A digit counts for its distance from zero, digits count ten times more for each digit behind
/// them, and a number is written with one digit at least, behind a plus sign or without one.
pub proof fn digits_count_in_tens(s: Seq<char>, c: char)
    ensures
        '0' <= c <= '9' ==> digit_value(c) == Some((c as int - '0' as int) as nat),
        !('0' <= c <= '9') ==> digit_value(c) is None,
        digits_value(Seq::empty()) == 0,
        digit_value(c) is Some ==> digits_value(s.push(c)) == 10 * digits_value(s) + digit_value(
            c,
        )->0,
        number_value(Seq::empty()) is None,
        number_value(seq!['+']) is None,
        s.len() > 0 && s[0] != '+' ==> {
            &&& number_value(s) is Some <==> forall|i: int|
                0 <= i < s.len() ==> '0' <= #[trigger] s[i] <= '9'
            &&& number_value(s) is Some ==> number_value(s) == Some(digits_value(s))
            &&& number_value(seq!['+'] + s) == number_value(s)
        },
{
    assert(s.push(c).drop_last() =~= s);
    assert(seq!['+'].drop_first() =~= Seq::<char>::empty());
    assert((seq!['+'] + s).drop_first() =~= s);
    if s.len() > 0 && s[0] != '+' {
        assert((seq!['+'] + s)[0] == '+');
        assert(all_digits(s) <==> forall|i: int|
            0 <= i < s.len() ==> '0' <= #[trigger] s[i] <= '9') by {
            if all_digits(s) {
                assert forall|i: int| 0 <= i < s.len() implies '0' <= #[trigger] s[i] <= '9' by {
                    assert(digit_value(s[i]) is Some);
                }
            }
        }
    }
}

/// Decimal digits, and what they are worth together.
proof fn lemma_decimal_digits(n: nat)
    ensures
        decimal(n).len() > 0,
        all_digits(decimal(n)),
        digits_value(decimal(n)) == n,
    decreases n,
{
    let s = decimal(n);
    if n < 10 {
        assert(s.drop_last() =~= Seq::<char>::empty());
        assert(digits_value(Seq::<char>::empty()) == 0);
    } else {
        lemma_decimal_digits(n / 10);
        assert(s.drop_last() =~= decimal(n / 10));
        assert(s.last() == digit(n % 10));
        assert forall|i: int| 0 <= i < s.len() implies digit_value(#[trigger] s[i]) is Some by {
            if i < s.len() - 1 {
                assert(s[i] == decimal(n / 10)[i]);
            }
        }
    }
}

} // verus!
