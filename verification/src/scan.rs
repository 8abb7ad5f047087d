//! The two fixed textual patterns of the pipeline, as verified scanners.
//!
//! An aggregated call's data is mined for nested call payloads: every
//! maximal contiguous run of the shape `0x` followed by one or more hex
//! digits, in left-to-right order.  A data source's response text is mined
//! for a resolved name: the leftmost occurrence of a `"name":` field
//! followed by optional whitespace and a quoted, whitespace-free value.

use vstd::prelude::*;
use vstd::string::StrSliceExecFns;
use vstd::string::StringExecFns;

verus! {

/// A hexadecimal digit, either case.
pub open spec fn is_hex_digit(c: char) -> bool {
    ||| ('0' as u32) <= (c as u32) && (c as u32) <= ('9' as u32)
    ||| ('a' as u32) <= (c as u32) && (c as u32) <= ('f' as u32)
    ||| ('A' as u32) <= (c as u32) && (c as u32) <= ('F' as u32)
}

fn is_hex_digit_exec(c: char) -> (r: bool)
    ensures
        r == is_hex_digit(c),
{
    let u = c as u32;
    (('0' as u32) <= u && u <= ('9' as u32)) || (('a' as u32) <= u && u <= ('f' as u32)) || (('A'
        as u32) <= u && u <= ('F' as u32))
}

/// The end of the run of hex digits that starts at `i`: the first position
/// at or after `i` holding no hex digit.
pub open spec fn hex_run_end(s: Seq<char>, i: int) -> int
    decreases s.len() - i,
{
    if 0 <= i && i < s.len() && is_hex_digit(s[i]) {
        hex_run_end(s, i + 1)
    } else {
        i
    }
}

pub proof fn lemma_hex_run_end_bounds(s: Seq<char>, i: int)
    requires
        0 <= i <= s.len(),
    ensures
        i <= hex_run_end(s, i) <= s.len(),
    decreases s.len() - i,
{
    if i < s.len() && is_hex_digit(s[i]) {
        lemma_hex_run_end_bounds(s, i + 1);
    }
}

/// A nested call payload starts at `i`: the characters `0x` followed by at
/// least one hex digit.
pub open spec fn payload_start(s: Seq<char>, i: int) -> bool {
    &&& 0 <= i
    &&& i + 3 <= s.len()
    &&& s[i] == '0'
    &&& s[i + 1] == 'x'
    &&& is_hex_digit(s[i + 2])
}

/// The nested call payloads found at or after position `i`, in
/// left-to-right order: each is a maximal run `0x` plus hex digits, and the
/// scan resumes right after a found run.
pub open spec fn payloads_from(s: Seq<char>, i: int) -> Seq<Seq<char>>
    decreases s.len() - i,
    via payloads_from_decreases
{
    if !(0 <= i && i < s.len()) {
        Seq::empty()
    } else if payload_start(s, i) {
        let e = hex_run_end(s, i + 2);
        seq![s.subrange(i, e)] + payloads_from(s, e)
    } else {
        payloads_from(s, i + 1)
    }
}

#[via_fn]
proof fn payloads_from_decreases(s: Seq<char>, i: int) {
    if 0 <= i && i < s.len() && payload_start(s, i) {
        lemma_hex_run_end_bounds(s, i + 2);
    }
}

/// The payloads of a whole data string.
pub open spec fn payloads_of(s: Seq<char>) -> Seq<Seq<char>> {
    payloads_from(s, 0)
}

/// Extracts every nested call payload from an aggregated call's data, in
/// order.
pub fn extract_payloads(data: &str) -> (r: Vec<String>)
    ensures
        r.deep_view() == payloads_of(data@),
{
    let n = data.unicode_len();
    let mut out: Vec<String> = Vec::new();
    let mut i: usize = 0;
    while i < n
        invariant
            n == data@.len(),
            i <= n,
            payloads_of(data@) == out.deep_view() + payloads_from(data@, i as int),
        decreases n - i,
    {
        let ghost s = data@;
        if i + 1 < n && i + 2 < n && data.get_char(i) == '0' && data.get_char(i + 1) == 'x'
            && is_hex_digit_exec(data.get_char(i + 2)) {
            // a payload starts here: find the end of its hex run
            let mut e: usize = i + 2;
            while e < n
                invariant_except_break
                    s == data@,
                    n == s.len(),
                    i + 2 <= e <= n,
                    hex_run_end(s, i + 2) == hex_run_end(s, e as int),
                ensures
                    i + 2 <= e <= n,
                    e as int == hex_run_end(s, i + 2),
                decreases n - e,
            {
                if is_hex_digit_exec(data.get_char(e)) {
                    proof {
                        assert(hex_run_end(s, e as int) == hex_run_end(s, e + 1 as int));
                    }
                    e = e + 1;
                } else {
                    proof {
                        assert(hex_run_end(s, e as int) == e);
                    }
                    break;
                }
            }
            proof {
                assert(payload_start(s, i as int));
                assert(payloads_from(s, i as int) =~= seq![s.subrange(i as int, e as int)]
                    + payloads_from(s, e as int));
            }
            let payload = String::from_str(data.substring_char(i, e));
            out.push(payload);
            proof {
                assert(out.deep_view().drop_last() + seq![s.subrange(i as int, e as int)]
                    =~= out.deep_view());
                assert(payloads_of(s) =~= out.deep_view() + payloads_from(s, e as int));
            }
            i = e;
        } else {
            proof {
                assert(!payload_start(s, i as int));
                assert(payloads_from(s, i as int) == payloads_from(s, i + 1 as int));
            }
            i = i + 1;
        }
    }
    proof {
        assert(payloads_from(data@, n as int) =~= Seq::empty());
        assert(out.deep_view() + Seq::<Seq<char>>::empty() =~= out.deep_view());
    }
    out
}

/// A whitespace character, per the Unicode white-space set.
pub open spec fn is_space(c: char) -> bool {
    ||| c == '\t'
    ||| c == '\n'
    ||| c == '\x0b'
    ||| c == '\x0c'
    ||| c == '\r'
    ||| c == ' '
    ||| c == '\u{85}'
    ||| c == '\u{a0}'
    ||| c == '\u{1680}'
    ||| ('\u{2000}' as u32) <= (c as u32) && (c as u32) <= ('\u{200a}' as u32)
    ||| c == '\u{2028}'
    ||| c == '\u{2029}'
    ||| c == '\u{202f}'
    ||| c == '\u{205f}'
    ||| c == '\u{3000}'
}

fn is_space_exec(c: char) -> (r: bool)
    ensures
        r == is_space(c),
{
    c == '\t' || c == '\n' || c == '\x0b' || c == '\x0c' || c == '\r' || c == ' ' || c == '\u{85}'
        || c == '\u{a0}' || c == '\u{1680}' || (('\u{2000}' as u32) <= (c as u32) && (c as u32)
        <= ('\u{200a}' as u32)) || c == '\u{2028}' || c == '\u{2029}' || c == '\u{202f}' || c
        == '\u{205f}' || c == '\u{3000}'
}

/// The first position at or after `i` holding no whitespace.
pub open spec fn skip_spaces(s: Seq<char>, i: int) -> int
    decreases s.len() - i,
{
    if 0 <= i && i < s.len() && is_space(s[i]) {
        skip_spaces(s, i + 1)
    } else {
        i
    }
}

/// The end of the run of non-whitespace characters that starts at `i`.
pub open spec fn nonspace_run_end(s: Seq<char>, i: int) -> int
    decreases s.len() - i,
{
    if 0 <= i && i < s.len() && !is_space(s[i]) {
        nonspace_run_end(s, i + 1)
    } else {
        i
    }
}

/// The largest position `m` with `lo <= m < hi` holding a double quote.
pub open spec fn last_quote(s: Seq<char>, lo: int, hi: int) -> Option<int>
    decreases hi - lo,
{
    if hi <= lo {
        None
    } else if s[hi - 1] == '"' {
        Some(hi - 1)
    } else {
        last_quote(s, lo, hi - 1)
    }
}

/// The name captured by the fixed pattern when it matches at position `i`:
/// the literal `"name":`, optional whitespace, and a quoted value of one or
/// more non-whitespace characters, taken as long as possible.
pub open spec fn name_match_at(s: Seq<char>, i: int) -> Option<Seq<char>> {
    if 0 <= i && i + 7 <= s.len() && s.subrange(i, i + 7) == "\"name\":"@ {
        let k = skip_spaces(s, i + 7);
        if k < s.len() && s[k] == '"' {
            let e = nonspace_run_end(s, k + 1);
            match last_quote(s, k + 2, e) {
                Some(m) => Some(s.subrange(k + 1, m)),
                None => None,
            }
        } else {
            None
        }
    } else {
        None
    }
}

/// The name the pattern extracts from a response text: the capture of the
/// leftmost position where it matches, if any.
pub open spec fn extracted_from(s: Seq<char>, i: int) -> Option<Seq<char>>
    decreases s.len() - i,
{
    if !(0 <= i && i < s.len()) {
        None
    } else {
        match name_match_at(s, i) {
            Some(d) => Some(d),
            None => extracted_from(s, i + 1),
        }
    }
}

/// The name extracted from a whole response text.
pub open spec fn extracted_name(s: Seq<char>) -> Option<Seq<char>> {
    extracted_from(s, 0)
}

/// Extracts the resolved name from a data source's response text, if the
/// fixed pattern finds one.
pub fn extract_name(resp: &str) -> (r: Option<String>)
    ensures
        match r {
            Some(v) => extracted_name(resp@) == Some(v@),
            None => extracted_name(resp@) is None,
        },
{
    let ghost s = resp@;
    let n = resp.unicode_len();
    let mut i: usize = 0;
    while i < n
        invariant
            s == resp@,
            n == s.len(),
            i <= n,
            extracted_name(s) == extracted_from(s, i as int),
        decreases n - i,
    {
        match try_name_match(resp, i) {
            Some(v) => {
                proof {
                    assert(extracted_from(s, i as int) == Some(v@));
                }
                return Some(v);
            },
            None => {
                proof {
                    assert(extracted_from(s, i as int) == extracted_from(s, i + 1 as int));
                }
                i = i + 1;
            },
        }
    }
    None
}

/// Tries the fixed pattern at one position of the response text.
fn try_name_match(resp: &str, i: usize) -> (r: Option<String>)
    requires
        i < resp@.len(),
    ensures
        match r {
            Some(v) => name_match_at(resp@, i as int) == Some(v@),
            None => name_match_at(resp@, i as int) is None,
        },
{
    let ghost s = resp@;
    let n = resp.unicode_len();
    proof {
        reveal_strlit("\"name\":");
    }
    if n - i < 7 {
        return None;
    }
    if !(resp.get_char(i) == '"' && resp.get_char(i + 1) == 'n' && resp.get_char(i + 2) == 'a'
        && resp.get_char(i + 3) == 'm' && resp.get_char(i + 4) == 'e' && resp.get_char(i + 5)
        == '"' && resp.get_char(i + 6) == ':') {
        proof {
            let sub = s.subrange(i as int, i + 7 as int);
            assert(sub[0] == s[i as int] && sub[1] == s[i + 1] && sub[2] == s[i + 2] && sub[3]
                == s[i + 3] && sub[4] == s[i + 4] && sub[5] == s[i + 5] && sub[6] == s[i + 6]);
            assert(sub != "\"name\":"@);
        }
        return None;
    }
    proof {
        assert(s.subrange(i as int, i + 7 as int) =~= "\"name\":"@);
    }
    // skip whitespace after the colon
    let mut k: usize = i + 7;
    while k < n
        invariant_except_break
            s == resp@,
            n == s.len(),
            i + 7 <= k <= n,
            skip_spaces(s, i + 7) == skip_spaces(s, k as int),
        ensures
            i + 7 <= k <= n,
            k as int == skip_spaces(s, i + 7),
        decreases n - k,
    {
        if is_space_exec(resp.get_char(k)) {
            proof {
                assert(skip_spaces(s, k as int) == skip_spaces(s, k + 1 as int));
            }
            k = k + 1;
        } else {
            proof {
                assert(skip_spaces(s, k as int) == k);
            }
            break;
        }
    }
    if !(k < n && resp.get_char(k) == '"') {
        return None;
    }
    // the quoted value: the longest run of non-whitespace characters that
    // is followed by a closing quote
    let mut e: usize = k + 1;
    while e < n
        invariant_except_break
            s == resp@,
            n == s.len(),
            k + 1 <= e <= n,
            nonspace_run_end(s, k + 1) == nonspace_run_end(s, e as int),
        ensures
            k + 1 <= e <= n,
            e as int == nonspace_run_end(s, k + 1),
        decreases n - e,
    {
        if !is_space_exec(resp.get_char(e)) {
            proof {
                assert(nonspace_run_end(s, e as int) == nonspace_run_end(s, e + 1 as int));
            }
            e = e + 1;
        } else {
            proof {
                assert(nonspace_run_end(s, e as int) == e);
            }
            break;
        }
    }
    let mut hi: usize = e;
    loop
        invariant_except_break
            s == resp@,
            n == s.len(),
            e <= n,
            i + 7 <= k,
            k <= hi && hi <= e,
            last_quote(s, k + 2, e as int) == last_quote(s, k + 2, hi as int),
        ensures
            k <= hi,
            match last_quote(s, k + 2, e as int) {
                Some(m) => k + 2 < hi <= e && hi - 1 == m && s[hi - 1] == '"',
                None => hi <= k + 2,
            },
        decreases hi,
    {
        if hi - 2 <= k {
            proof {
                assert(last_quote(s, k + 2, hi as int) is None);
            }
            break;
        }
        if resp.get_char(hi - 1) == '"' {
            proof {
                assert(last_quote(s, k + 2, hi as int) == Some(hi - 1 as int));
            }
            break;
        }
        proof {
            assert(last_quote(s, k + 2, hi as int) == last_quote(s, k + 2, hi - 1 as int));
        }
        hi = hi - 1;
    }
    if hi - 2 <= k {
        return None;
    }
    let m = hi - 1;
    let captured = String::from_str(resp.substring_char(k + 1, m));
    proof {
        assert(name_match_at(s, i as int) == Some(s.subrange(k + 1 as int, m as int)));
    }
    Some(captured)
}

} // verus!
