//! The query-string model: `&`-separated segments, each split at its first
//! `=` into a key and a value, both form-decoded (`+` as space, percent
//! escapes), and lookup of the first binding of a key.
use vstd::prelude::*;
use vstd::string::StrSliceExecFns;
use crate::text::{find_char, lemma_find_char, find_char_at, push_char, str_eq};

verus! {

/// A hexadecimal digit.
pub open spec fn is_hex_digit(c: char) -> bool {
    ('0' <= c && c <= '9') || ('a' <= c && c <= 'f') || ('A' <= c && c <= 'F')
}

/// The value of a hexadecimal digit.
pub open spec fn hex_digit_value(c: char) -> int {
    if '0' <= c && c <= '9' {
        c as u32 - '0' as u32
    } else if 'a' <= c && c <= 'f' {
        10 + (c as u32 - 'a' as u32)
    } else {
        10 + (c as u32 - 'A' as u32)
    }
}

/// Whether `s` starts with a well-formed escape of an ASCII character:
/// `%` followed by two hex digits whose value is below 0x80.
pub open spec fn ascii_escape_at(s: Seq<char>) -> bool {
    s.len() >= 3 && s[0] == '%' && is_hex_digit(s[1]) && is_hex_digit(s[2]) && hex_digit_value(
        s[1],
    ) * 16 + hex_digit_value(s[2]) < 128
}

/// The character an ASCII escape denotes.
pub open spec fn escape_char(h1: char, h2: char) -> char {
    (((hex_digit_value(h1) * 16 + hex_digit_value(h2)) as u8) as char)
}

/// Form decoding of one query component: `+` means space, and `%` followed
/// by two hex digits below 0x80 means that ASCII character. Escapes of
/// higher bytes (pieces of multi-byte UTF-8 sequences) and malformed
/// escapes are kept as they stand.
pub open spec fn url_decode(s: Seq<char>) -> Seq<char>
    decreases s.len(),
{
    if s.len() == 0 {
        s
    } else if s[0] == '+' {
        seq![' '] + url_decode(s.drop_first())
    } else if ascii_escape_at(s) {
        seq![escape_char(s[1], s[2])] + url_decode(s.subrange(3, s.len() as int))
    } else {
        seq![s[0]] + url_decode(s.drop_first())
    }
}

/// The value of a hexadecimal digit, or `None` for any other character.
fn hex_value_of(c: char) -> (r: Option<u32>)
    ensures
        match r {
            Some(v) => is_hex_digit(c) && v as int == hex_digit_value(c) && v < 16,
            None => !is_hex_digit(c),
        },
{
    if c >= '0' && c <= '9' {
        Some(c as u32 - '0' as u32)
    } else if c >= 'a' && c <= 'f' {
        Some(10 + (c as u32 - 'a' as u32))
    } else if c >= 'A' && c <= 'F' {
        Some(10 + (c as u32 - 'A' as u32))
    } else {
        None
    }
}

/// Form-decode one query component.
pub fn url_decode_text(s: &str) -> (r: String)
    ensures
        r@ == url_decode(s@),
{
    let n = s.unicode_len();
    let mut r = String::new();
    let mut i: usize = 0;
    proof {
        assert(s@.subrange(0, n as int) =~= s@);
        assert(Seq::<char>::empty() + url_decode(s@) =~= url_decode(s@));
    }
    while i < n
        invariant
            0 <= i <= n,
            n == s@.len(),
            url_decode(s@) == r@ + url_decode(s@.subrange(i as int, n as int)),
        decreases n - i,
    {
        let ghost rest = s@.subrange(i as int, n as int);
        let ghost r0 = r@;
        let c = s.get_char(i);
        proof {
            assert(rest[0] == c);
        }
        let step: usize;
        if c == '+' {
            push_char(&mut r, ' ');
            step = 1;
            proof {
                assert(rest.drop_first() =~= s@.subrange(i + 1, n as int));
                assert(r@ =~= r0 + seq![' ']);
            }
        } else if c == '%' && n - i > 2 {
            let o1 = hex_value_of(s.get_char(i + 1));
            let o2 = hex_value_of(s.get_char(i + 2));
            proof {
                assert(rest[1] == s@[i + 1]);
                assert(rest[2] == s@[i + 2]);
            }
            let mut esc: Option<char> = None;
            if let (Some(v1), Some(v2)) = (o1, o2) {
                let v = v1 * 16 + v2;
                if v < 128 {
                    esc = Some((v as u8) as char);
                }
            }
            match esc {
                Some(e) => {
                    push_char(&mut r, e);
                    step = 3;
                    proof {
                        assert(ascii_escape_at(rest));
                        assert(e == escape_char(rest[1], rest[2]));
                        assert(rest.subrange(3, rest.len() as int) =~= s@.subrange(
                            i + 3,
                            n as int,
                        ));
                        assert(r@ =~= r0 + seq![e]);
                    }
                },
                None => {
                    push_char(&mut r, c);
                    step = 1;
                    proof {
                        assert(!ascii_escape_at(rest));
                        assert(rest.drop_first() =~= s@.subrange(i + 1, n as int));
                        assert(r@ =~= r0 + seq![c]);
                    }
                },
            }
        } else {
            push_char(&mut r, c);
            step = 1;
            proof {
                assert(!ascii_escape_at(rest));
                assert(rest.drop_first() =~= s@.subrange(i + 1, n as int));
                assert(r@ =~= r0 + seq![c]);
            }
        }
        proof {
            assert(r@ + url_decode(s@.subrange(i + step, n as int)) =~= r0 + url_decode(rest));
        }
        i += step;
    }
    proof {
        assert(s@.subrange(n as int, n as int) =~= Seq::<char>::empty());
        assert(r@ =~= url_decode(s@));
    }
    r
}

/// One key/value pair of a segment: the text before the first `=` and the
/// text after it, each form-decoded; a segment without `=` has the empty
/// value.
pub open spec fn split_pair(seg: Seq<char>) -> (Seq<char>, Seq<char>) {
    let i = find_char(seg, '=');
    if 0 <= i < seg.len() {
        (url_decode(seg.subrange(0, i)), url_decode(seg.subrange(i + 1, seg.len() as int)))
    } else {
        (url_decode(seg), Seq::empty())
    }
}

/// The key/value pairs of a query string, in order of appearance.
pub open spec fn query_pairs(q: Seq<char>) -> Seq<(Seq<char>, Seq<char>)>
    decreases q.len(),
{
    let i = find_char(q, '&');
    if 0 <= i < q.len() {
        seq![split_pair(q.subrange(0, i))] + query_pairs(q.subrange(i + 1, q.len() as int))
    } else {
        seq![split_pair(q)]
    }
}

/// The value of the first pair whose key is `key`, if any.
pub open spec fn lookup_pairs(pairs: Seq<(Seq<char>, Seq<char>)>, key: Seq<char>) -> Option<
    Seq<char>,
>
    decreases pairs.len(),
{
    if pairs.len() == 0 {
        None
    } else if pairs[0].0 == key {
        Some(pairs[0].1)
    } else {
        lookup_pairs(pairs.drop_first(), key)
    }
}

/// The value bound to `key` in query string `q`: the value of the first
/// `key=value` segment, or `None` when no segment has that key. A key
/// bound more than once keeps its first binding; a duplicate is not an
/// error here.
pub open spec fn query_value(q: Seq<char>, key: Seq<char>) -> Option<Seq<char>> {
    lookup_pairs(query_pairs(q), key)
}

/// Prepending one pair to a pair list: lookup takes the new pair when its
/// key matches, and falls through to the rest otherwise.
proof fn lemma_lookup_cons(
    p: (Seq<char>, Seq<char>),
    rest: Seq<(Seq<char>, Seq<char>)>,
    key: Seq<char>,
)
    ensures
        lookup_pairs(seq![p] + rest, key) == (if p.0 == key {
            Some(p.1)
        } else {
            lookup_pairs(rest, key)
        }),
{
    let s = seq![p] + rest;
    assert(s[0] == p);
    assert(s.drop_first() =~= rest);
}

/// Look up `key` in the query string, returning the form-decoded value of
/// its first binding, or `None` when the key is absent. Keys are compared
/// after decoding.
pub fn query_get(q: &str, key: &str) -> (r: Option<String>)
    ensures
        match r {
            Some(v) => query_value(q@, key@) == Some(v@),
            None => query_value(q@, key@) is None,
        },
    decreases q@.len(),
{
    let n = q.unicode_len();
    let amp = find_char_at(q, '&');
    proof {
        lemma_find_char(q@, '&');
    }
    let seg = if amp < n {
        q.substring_char(0, amp)
    } else {
        q
    };
    let sn = seg.unicode_len();
    let eq = find_char_at(seg, '=');
    proof {
        lemma_find_char(seg@, '=');
    }
    let (k, v): (&str, &str) = if eq < sn {
        (seg.substring_char(0, eq), seg.substring_char(eq + 1, sn))
    } else {
        (seg, "")
    };
    let dk = url_decode_text(k);
    let dv = url_decode_text(v);
    proof {
        reveal_strlit("");
        if eq >= sn {
            assert(url_decode(v@) =~= Seq::<char>::empty());
        }
        assert(split_pair(seg@).0 == dk@);
        assert(split_pair(seg@).1 == dv@);
        if amp < n {
            lemma_lookup_cons(split_pair(seg@), query_pairs(q@.subrange(amp + 1, q@.len() as int)), key@);
        } else {
            lemma_lookup_cons(split_pair(seg@), Seq::empty(), key@);
            assert(query_pairs(q@) =~= seq![split_pair(q@)] + Seq::empty());
        }
    }
    if str_eq(dk.as_str(), key) {
        return Some(dv);
    }
    if amp < n {
        let rest = q.substring_char(amp + 1, n);
        query_get(rest, key)
    } else {
        None
    }
}

} // verus!
