//! The number grammar accepted for the `a` and `b` parameters: decimal
//! notation with an optional sign and an optional fractional part; and the
//! normalization that turns accepted text into JSON number syntax.
use vstd::prelude::*;
use vstd::string::{StrSliceExecFns, StringExecFns};
use crate::text::{contains_char, find_char, lemma_find_char, find_char_at};

verus! {

/// A decimal digit.
pub open spec fn is_digit(c: char) -> bool {
    '0' <= c && c <= '9'
}

/// Every character of `s` is a digit.
pub open spec fn all_digits(s: Seq<char>) -> bool {
    forall|i: int| 0 <= i < s.len() ==> is_digit(s[i])
}

/// Digit text with at most one `.`, and at least one digit on each side of
/// it: `5`, `10`, `2.5`.
pub open spec fn unsigned_decimal(s: Seq<char>) -> bool {
    let i = find_char(s, '.');
    if 0 <= i < s.len() {
        i > 0 && i + 1 < s.len() && all_digits(s.subrange(0, i)) && all_digits(
            s.subrange(i + 1, s.len() as int),
        )
    } else {
        s.len() > 0 && all_digits(s)
    }
}

/// Decimal notation for a number: an optional sign, an integer part, and an
/// optional fractional part. This is the grammar the arithmetic endpoints
/// accept for their parameters.
pub open spec fn decimal_number(s: Seq<char>) -> bool {
    if s.len() > 0 && (s[0] == '+' || s[0] == '-') {
        unsigned_decimal(s.drop_first())
    } else {
        unsigned_decimal(s)
    }
}

/// Check that the characters of `s` at positions `from..to` are all digits.
fn digits_in_range(s: &str, from: usize, to: usize) -> (b: bool)
    requires
        from <= to <= s@.len(),
    ensures
        b == all_digits(s@.subrange(from as int, to as int)),
{
    let ghost sub = s@.subrange(from as int, to as int);
    let mut i: usize = from;
    while i < to
        invariant
            from <= i <= to <= s@.len(),
            sub == s@.subrange(from as int, to as int),
            forall|j: int| 0 <= j < i - from ==> is_digit(sub[j]),
        decreases to - i,
    {
        let c = s.get_char(i);
        if !(c >= '0' && c <= '9') {
            proof {
                assert(sub[i - from] == s@[i as int]);
            }
            return false;
        }
        proof {
            assert(sub[i - from] == s@[i as int]);
        }
        i += 1;
    }
    true
}

/// Check `s` against the unsigned part of the decimal grammar.
fn is_unsigned_decimal_str(s: &str) -> (b: bool)
    ensures
        b == unsigned_decimal(s@),
{
    let n = s.unicode_len();
    let dot = find_char_at(s, '.');
    proof {
        lemma_find_char(s@, '.');
    }
    if dot < n {
        if dot == 0 || dot + 1 >= n {
            return false;
        }
        if !digits_in_range(s, 0, dot) {
            return false;
        }
        digits_in_range(s, dot + 1, n)
    } else {
        if n == 0 {
            return false;
        }
        let b = digits_in_range(s, 0, n);
        proof {
            assert(s@.subrange(0, n as int) =~= s@);
        }
        b
    }
}

/// A nonempty digit run that JSON accepts as an integer part: no leading
/// zero unless it is the single digit `0`.
pub open spec fn json_integer_part(d: Seq<char>) -> bool {
    d.len() > 0 && all_digits(d) && (d[0] != '0' || d.len() == 1)
}

/// JSON number syntax, in the exponent-free form the service emits: an
/// optional minus sign, an integer part without needless leading zeros, and
/// an optional fraction of one or more digits.
pub open spec fn json_decimal(s: Seq<char>) -> bool {
    let u = if s.len() > 0 && s[0] == '-' {
        s.drop_first()
    } else {
        s
    };
    let dot = find_char(u, '.');
    if 0 <= dot < u.len() {
        json_integer_part(u.subrange(0, dot)) && dot + 1 < u.len() && all_digits(
            u.subrange(dot + 1, u.len() as int),
        )
    } else {
        json_integer_part(u)
    }
}

/// The text without its sign character, when it carries one.
pub open spec fn strip_sign(s: Seq<char>) -> Seq<char> {
    if s.len() > 0 && (s[0] == '+' || s[0] == '-') {
        s.drop_first()
    } else {
        s
    }
}

/// True when the text carries a minus sign.
pub open spec fn is_negative_number(s: Seq<char>) -> bool {
    s.len() > 0 && s[0] == '-'
}

/// The digit run with its needless leading zeros removed; the last
/// character always stays, so `000` keeps one `0`.
pub open spec fn strip_leading_zeros(d: Seq<char>) -> Seq<char>
    decreases d.len(),
{
    if d.len() > 1 && d[0] == '0' {
        strip_leading_zeros(d.drop_first())
    } else {
        d
    }
}

/// Accepted operand text brought to JSON number syntax: a `+` sign dropped,
/// a `-` sign kept, leading zeros of the integer part removed, and the
/// fraction kept as written.
pub open spec fn normal_decimal(s: Seq<char>) -> Seq<char> {
    let u = strip_sign(s);
    let sign: Seq<char> = if is_negative_number(s) {
        seq!['-']
    } else {
        Seq::empty()
    };
    let dot = find_char(u, '.');
    if 0 <= dot < u.len() {
        sign + strip_leading_zeros(u.subrange(0, dot)) + u.subrange(dot, u.len() as int)
    } else {
        sign + strip_leading_zeros(u)
    }
}

/// Stripping leading zeros keeps exactly the suffix that starts at the
/// first character that is not a needless zero.
proof fn lemma_strip_is_suffix(d: Seq<char>, k: int)
    requires
        0 <= k <= d.len(),
        forall|j: int| 0 <= j < k ==> d[j] == '0',
        k < d.len() ==> (d[k] != '0' || k == d.len() - 1),
        k == d.len() ==> d.len() == 0,
    ensures
        strip_leading_zeros(d) == d.subrange(k, d.len() as int),
    decreases d.len(),
{
    if d.len() == 0 {
        assert(strip_leading_zeros(d) =~= d.subrange(0, 0));
    } else if k == 0 {
        assert(strip_leading_zeros(d) =~= d.subrange(0, d.len() as int));
    } else {
        let t = d.drop_first();
        assert forall|j: int| 0 <= j < k - 1 implies t[j] == '0' by {
            assert(t[j] == d[j + 1]);
        }
        lemma_strip_is_suffix(t, k - 1);
        assert(t.subrange(k - 1, t.len() as int) =~= d.subrange(k, d.len() as int));
    }
}

/// Stripping leading zeros from a nonempty digit run leaves a JSON integer
/// part.
proof fn lemma_strip_json(d: Seq<char>)
    requires
        d.len() > 0,
        all_digits(d),
    ensures
        json_integer_part(strip_leading_zeros(d)),
    decreases d.len(),
{
    if d.len() > 1 && d[0] == '0' {
        let t = d.drop_first();
        assert forall|j: int| 0 <= j < t.len() implies is_digit(t[j]) by {
            assert(t[j] == d[j + 1]);
        }
        lemma_strip_json(t);
    }
}

/// The normalized form of accepted operand text is JSON number syntax.
pub proof fn lemma_normal_decimal_is_json(s: Seq<char>)
    requires
        decimal_number(s),
    ensures
        json_decimal(normal_decimal(s)),
{
    let u = strip_sign(s);
    assert(unsigned_decimal(u));
    let dot = find_char(u, '.');
    lemma_find_char(u, '.');
    let r = normal_decimal(s);
    if 0 <= dot < u.len() {
        let ip = u.subrange(0, dot);
        let z = strip_leading_zeros(ip);
        lemma_strip_json(ip);
        let tail = u.subrange(dot, u.len() as int);
        let v = if r.len() > 0 && r[0] == '-' {
            r.drop_first()
        } else {
            r
        };
        assert(v =~= z + tail);
        lemma_find_char(v, '.');
        assert(v[z.len() as int] == u[dot]);
        assert forall|j: int| 0 <= j < z.len() implies v[j] != '.' by {
            assert(v[j] == z[j]);
            assert(is_digit(z[j]));
        }
        assert(contains_char(v, '.'));
        let fd = find_char(v, '.');
        assert(fd == z.len());
        assert(v.subrange(0, fd) =~= z);
        assert(v.subrange(fd + 1, v.len() as int) =~= u.subrange(dot + 1, u.len() as int));
    } else {
        let z = strip_leading_zeros(u);
        lemma_strip_json(u);
        let v = if r.len() > 0 && r[0] == '-' {
            r.drop_first()
        } else {
            r
        };
        assert(v =~= z);
        lemma_find_char(v, '.');
        if contains_char(v, '.') {
            let i = choose|i: int| 0 <= i < v.len() && v[i] == '.';
            assert(is_digit(z[i]));
        }
        assert(!contains_char(v, '.'));
    }
}

/// Bring accepted operand text to JSON number syntax: drop a `+` sign,
/// keep a `-` sign, remove leading zeros of the integer part, and keep the
/// fraction as written. Text outside the decimal grammar is reshaped by the
/// same rules, with no promise of JSON validity.
pub fn normalize_number(s: &str) -> (r: String)
    ensures
        r@ == normal_decimal(s@),
{
    let n = s.unicode_len();
    let mut negative = false;
    let mut has_sign = false;
    if n > 0 {
        let c = s.get_char(0);
        if c == '+' || c == '-' {
            has_sign = true;
            negative = c == '-';
        }
    }
    let start: usize = if has_sign {
        1
    } else {
        0
    };
    let u = s.substring_char(start, n);
    proof {
        assert(u@ =~= strip_sign(s@));
    }
    let un = u.unicode_len();
    let dot = find_char_at(u, '.');
    proof {
        lemma_find_char(u@, '.');
    }
    let int_end = if dot < un {
        dot
    } else {
        un
    };
    let mut k: usize = 0;
    while k + 1 < int_end && u.get_char(k) == '0'
        invariant
            0 <= k,
            int_end <= un == u@.len(),
            int_end == 0 ==> k == 0,
            int_end > 0 ==> k < int_end,
            forall|j: int| 0 <= j < k ==> u@[j] == '0',
        decreases int_end - k,
    {
        k += 1;
    }
    let mut r = String::new();
    if negative {
        r.append("-");
    }
    let ipart = u.substring_char(k, int_end);
    r.append(ipart);
    if dot < un {
        let tail = u.substring_char(dot, un);
        r.append(tail);
    }
    proof {
        reveal_strlit("-");
        let d = u@.subrange(0, int_end as int);
        assert forall|j: int| 0 <= j < k implies d[j] == '0' by {
            assert(d[j] == u@[j]);
        }
        lemma_strip_is_suffix(d, k as int);
        assert(d.subrange(k as int, d.len() as int) =~= u@.subrange(k as int, int_end as int));
        if dot >= un {
            assert(u@.subrange(0, int_end as int) =~= u@);
        }
        assert(r@ =~= normal_decimal(s@));
    }
    r
}

/// Check a parameter value against the decimal-number grammar.
pub fn is_decimal_number(s: &str) -> (b: bool)
    ensures
        b == decimal_number(s@),
{
    let n = s.unicode_len();
    if n > 0 {
        let c = s.get_char(0);
        if c == '+' || c == '-' {
            let t = s.substring_char(1, n);
            proof {
                assert(t@ =~= s@.drop_first());
            }
            return is_unsigned_decimal_str(t);
        }
    }
    is_unsigned_decimal_str(s)
}

} // verus!
