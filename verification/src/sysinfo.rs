//! The process's resident memory, read from the kernel's `statm` line: the
//! second whitespace-separated field counts resident pages.

use vstd::prelude::*;

verus! {

/// Unicode `White_Space`, which `char::is_whitespace` tests.
pub open spec fn is_ws(c: char) -> bool {
    let v = c as int;
    (0x9 <= v <= 0xD) || v == 0x20 || v == 0x85 || v == 0xA0 || v == 0x1680 || (0x2000 <= v
        <= 0x200A) || v == 0x2028 || v == 0x2029 || v == 0x202F || v == 0x205F || v == 0x3000
}

pub(crate) fn ws(c: char) -> (b: bool)
    ensures
        b == is_ws(c),
{
    let v = c as u32;
    assert(v as int == c as int);
    (0x9 <= v && v <= 0xD) || v == 0x20 || v == 0x85 || v == 0xA0 || v == 0x1680 || (0x2000 <= v
        && v <= 0x200A) || v == 0x2028 || v == 0x2029 || v == 0x202F || v == 0x205F || v == 0x3000
}

/// The whitespace-separated fields of a text, as `str::split_whitespace`
/// yields them.
pub open spec fn fields(s: Seq<char>) -> Seq<Seq<char>>
    decreases s.len(),
{
    if s.len() == 0 {
        Seq::empty()
    } else {
        let p = s.drop_last();
        let c = s.last();
        let f = fields(p);
        if is_ws(c) {
            f
        } else if p.len() > 0 && !is_ws(p.last()) {
            f.update(f.len() - 1, f.last().push(c))
        } else {
            f.push(seq![c])
        }
    }
}

proof fn lemma_fields_open(s: Seq<char>)
    requires
        s.len() > 0,
        !is_ws(s.last()),
    ensures
        fields(s).len() > 0,
    decreases s.len(),
{
    let p = s.drop_last();
    if p.len() > 0 && !is_ws(p.last()) {
        lemma_fields_open(p);
    }
}

/// Field `n` (from zero) of a text.
pub fn nth_field(s: &str, n: usize) -> (r: Option<String>)
    ensures
        match r {
            Some(f) => n < fields(s@).len() && f@ == fields(s@)[n as int],
            None => n >= fields(s@).len(),
        },
{
    let len = s.unicode_len();
    let mut count: usize = 0;
    let mut cur = String::new();
    let mut prev_ws = true;
    let mut i: usize = 0;
    while i < len
        invariant
            len == s@.len(),
            0 <= i <= len,
            count == fields(s@.subrange(0, i as int)).len(),
            count <= i,
            prev_ws == (i == 0 || is_ws(s@[i - 1])),
            count > n ==> cur@ == fields(s@.subrange(0, i as int))[n as int],
        decreases len - i,
    {
        let c = s.get_char(i);
        let is_space = ws(c);
        proof {
            let pre = s@.subrange(0, i as int);
            let post = s@.subrange(0, i as int + 1);
            assert(post.drop_last() =~= pre);
            assert(post.last() == c);
            if i > 0 {
                assert(pre.last() == s@[i - 1]);
            }
            if !prev_ws {
                lemma_fields_open(pre);
            }
        }
        if !is_space {
            if prev_ws {
                count = count + 1;
                if count - 1 == n {
                    let piece = s.substring_char(i, i + 1);
                    cur = String::new();
                    cur.append(piece);
                    proof {
                        assert(piece@ =~= seq![c]);
                        assert(cur@ =~= seq![c]);
                    }
                }
            } else if count > n && count - 1 == n {
                let piece = s.substring_char(i, i + 1);
                cur.append(piece);
                proof {
                    assert(piece@ =~= seq![c]);
                }
            }
        }
        prev_ws = is_space;
        proof {
            let post = s@.subrange(0, i as int + 1);
            let pre = s@.subrange(0, i as int);
            let f = fields(pre);
            if !is_space && !(i == 0 || is_ws(s@[i - 1])) && count > n {
                if count == n + 1 {
                    assert(fields(post)[n as int] =~= f.last().push(c));
                } else {
                    assert(fields(post)[n as int] == f[n as int]);
                }
            }
        }
        i = i + 1;
    }
    proof {
        assert(s@.subrange(0, len as int) =~= s@);
    }
    if count > n {
        Some(cur)
    } else {
        None
    }
}

/// The value of a run of decimal digits.
pub open spec fn digits_value(d: Seq<char>) -> nat
    decreases d.len(),
{
    if d.len() == 0 {
        0
    } else {
        digits_value(d.drop_last()) * 10 + ((d.last() as int) - 48) as nat
    }
}

pub open spec fn all_digits(d: Seq<char>) -> bool {
    forall|i: int| 0 <= i < d.len() ==> '0' <= #[trigger] d[i] && d[i] <= '9'
}

/// What `str::parse::<u64>` gives: an optional `+`, then at least one
/// decimal digit, with a value that fits.
pub open spec fn parsed_u64(s: Seq<char>) -> Option<u64> {
    let d = if s.len() > 0 && s[0] == '+' {
        s.drop_first()
    } else {
        s
    };
    if d.len() == 0 || !all_digits(d) || digits_value(d) > u64::MAX {
        None
    } else {
        Some(digits_value(d) as u64)
    }
}

proof fn lemma_digits_value_grows(d: Seq<char>)
    requires
        all_digits(d),
    ensures
        forall|k: int| 0 <= k <= d.len() ==> digits_value(#[trigger] d.subrange(0, k)) <= digits_value(d),
    decreases d.len(),
{
    if d.len() > 0 {
        let p = d.drop_last();
        lemma_digits_value_grows(p);
        assert forall|k: int| 0 <= k <= d.len() implies digits_value(#[trigger] d.subrange(0, k))
            <= digits_value(d) by {
            if k < d.len() {
                assert(d.subrange(0, k) =~= p.subrange(0, k));
                assert(p.subrange(0, p.len() as int) =~= p);
            } else {
                assert(d.subrange(0, k) =~= d);
            }
        }
    }
}

pub fn parse_u64(s: &str) -> (r: Option<u64>)
    ensures
        r == parsed_u64(s@),
{
    let n = s.unicode_len();
    let start: usize = if n > 0 && s.get_char(0) == '+' {
        1
    } else {
        0
    };
    let ghost d = if n > 0 && s@[0] == '+' {
        s@.drop_first()
    } else {
        s@
    };
    proof {
        assert(d =~= s@.subrange(start as int, n as int));
    }
    if start == n {
        return None;
    }
    let mut value: u64 = 0;
    let mut i: usize = start;
    while i < n
        invariant
            n == s@.len(),
            start <= i <= n,
            d == s@.subrange(start as int, n as int),
            d == (if s@.len() > 0 && s@[0] == '+' {
                s@.drop_first()
            } else {
                s@
            }),
            all_digits(s@.subrange(start as int, i as int)),
            value == digits_value(s@.subrange(start as int, i as int)),
        decreases n - i,
    {
        let c = s.get_char(i);
        let pre = Ghost(s@.subrange(start as int, i as int));
        proof {
            assert(s@.subrange(start as int, i as int + 1).drop_last() =~= pre@);
            assert(s@.subrange(start as int, i as int + 1).last() == c);
        }
        if !('0' <= c && c <= '9') {
            proof {
                assert(d[i - start] == c);
                assert(!all_digits(d));
            }
            return None;
        }
        let digit = (c as u8 - 48u8) as u64;
        assert(digit as int == (c as int) - 48) by {
            assert((c as u8) as int == c as int);
        }
        if value > (u64::MAX - digit) / 10 {
            proof {
                assert(all_digits(s@.subrange(start as int, i as int + 1)));
                let rest = s@.subrange(start as int, i as int + 1);
                assert(digits_value(rest) > u64::MAX) by (nonlinear_arith)
                    requires
                        digits_value(rest) == value * 10 + digit,
                        value > (u64::MAX - digit) / 10,
                        digit <= 9,
                ;
                if all_digits(d) {
                    lemma_digits_value_grows(d);
                    assert(d.subrange(0, i - start + 1) =~= rest);
                }
            }
            return None;
        }
        value = value * 10 + digit;
        i = i + 1;
    }
    Some(value)
}

/// The resident memory in bytes, from a `statm` line and the page size:
/// resident pages times the page size; `None` when the line has no readable
/// second field, the page size is not positive, or the product does not fit.
pub fn rss_bytes(statm: &str, page_size: i64) -> (r: Option<u64>)
    ensures
        match r {
            Some(bytes) => fields(statm@).len() > 1 && page_size > 0 && (parsed_u64(
                fields(statm@)[1],
            ) matches Some(pages) && bytes == pages * page_size),
            None => fields(statm@).len() <= 1 || page_size <= 0 || parsed_u64(fields(statm@)[1])
                is None || parsed_u64(fields(statm@)[1])->0 * page_size > u64::MAX,
        },
{
    let field = match nth_field(statm, 1) {
        Some(f) => f,
        None => {
            return None;
        },
    };
    let pages = match parse_u64(field.as_str()) {
        Some(p) => p,
        None => {
            return None;
        },
    };
    if page_size <= 0 {
        return None;
    }
    pages.checked_mul(page_size as u64)
}

} // verus!
