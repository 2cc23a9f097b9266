//! Recognition of the readiness signal in the child's output, one line at a time.
use vstd::prelude::*;
use crate::json::{json_u64_field, json_u64_field_of};
use crate::text::{
    lower_of, lowercase, chars_vec, contains, contains_exec, digit_value, digits_value, is_digit, occurs_at,
    occurs_at_exec,
};

verus! {

/// The announcement after which the server's host and port follow.
pub open spec fn banner() -> Seq<char> {
    "CodeNomad Server is ready at http://"@
}

/// The phrase, in lower case, of a line that announces a listening HTTP server.
pub open spec fn listening_phrase() -> Seq<char> {
    "http server listening"@
}

/// The first position at or after `k` that holds a colon, or the length of `s`.
pub open spec fn colon_from(s: Seq<char>, k: int) -> int
    decreases s.len() - k,
{
    if k < 0 || k >= s.len() {
        s.len() as int
    } else if s[k] == ':' {
        k
    } else {
        colon_from(s, k + 1)
    }
}

/// The end of the run of digits that starts at `k`.
pub open spec fn digits_end(s: Seq<char>, k: int) -> int
    decreases s.len() - k,
{
    if k < 0 || k >= s.len() || !is_digit(s[k]) {
        k
    } else {
        digits_end(s, k + 1)
    }
}

/// The digits of the port in an announcement that starts at `i`: the banner, a
/// host of one or more characters up to the first colon, then one or more digits.
pub open spec fn banner_at(s: Seq<char>, i: int) -> Option<Seq<char>> {
    if occurs_at(s, banner(), i) {
        let h = i + banner().len();
        let c = colon_from(s, h);
        if h < c && c < s.len() && c + 1 < digits_end(s, c + 1) {
            Some(s.subrange(c + 1, digits_end(s, c + 1)))
        } else {
            None
        }
    } else {
        None
    }
}

/// The port digits of the leftmost announcement at or after `i`.
pub open spec fn banner_from(s: Seq<char>, i: int) -> Option<Seq<char>>
    decreases s.len() - i,
{
    if i < 0 || i >= s.len() {
        None
    } else {
        match banner_at(s, i) {
            Some(d) => Some(d),
            None => banner_from(s, i + 1),
        }
    }
}

/// The position of the last colon that a digit follows, at or before `k - 1`;
/// `-1` where there is none.
pub open spec fn last_colon_digit(s: Seq<char>, k: int) -> int
    decreases k,
{
    if k <= 0 {
        -1
    } else if k - 1 < s.len() && s[k - 1] == ':' && k < s.len() && is_digit(s[k]) {
        k - 1
    } else {
        last_colon_digit(s, k - 1)
    }
}

/// The digits of the trailing `:PORT` token: those after the last colon that a
/// digit follows, where they are two to five.
pub open spec fn trailing_digits(s: Seq<char>) -> Option<Seq<char>> {
    let j = last_colon_digit(s, s.len() as int);
    if j >= 0 && 2 <= digits_end(s, j + 1) - (j + 1) <= 5 {
        Some(s.subrange(j + 1, digits_end(s, j + 1)))
    } else {
        None
    }
}

/// The port that the digits `d` write, where it fits in 16 bits.
pub open spec fn port_of(d: Option<Seq<char>>) -> Option<u16> {
    match d {
        Some(ds) => if digits_value(ds) <= 65535 {
            Some(digits_value(ds) as u16)
        } else {
            None
        },
        None => None,
    }
}

/// The port a line announces, given its lower-case form and the unsigned `port`
/// field it holds as a JSON object. In order: the port of the ready banner; else,
/// where the lower-case line holds the listening phrase, the trailing `:PORT`
/// token, and failing that the JSON `port` field where it fits in 16 bits.
pub open spec fn ready_signal(line: Seq<char>, lowered: Seq<char>, json_port: Option<u64>) -> Option<u16> {
    if port_of(banner_from(line, 0)) is Some {
        port_of(banner_from(line, 0))
    } else if !contains(lowered, listening_phrase()) {
        None
    } else if port_of(trailing_digits(line)) is Some {
        port_of(trailing_digits(line))
    } else {
        match json_port {
            Some(n) => if n <= 65535 {
                Some(n as u16)
            } else {
                None
            },
            None => None,
        }
    }
}

fn colon_from_exec(s: &Vec<char>, h: usize) -> (r: usize)
    requires
        h <= s@.len(),
    ensures
        r as int == colon_from(s@, h as int),
{
    let mut k = h;
    while k < s.len()
        invariant
            h <= k <= s@.len(),
            colon_from(s@, h as int) == colon_from(s@, k as int),
        decreases s@.len() - k,
    {
        if s[k] == ':' {
            return k;
        }
        k = k + 1;
    }
    k
}

fn digits_end_exec(s: &Vec<char>, start: usize) -> (r: usize)
    requires
        start <= s@.len(),
    ensures
        r as int == digits_end(s@, start as int),
        start <= r <= s@.len(),
        forall|j: int| start <= j < r ==> is_digit(#[trigger] s@[j]),
{
    let mut k = start;
    while k < s.len() && '0' <= s[k] && s[k] <= '9'
        invariant
            start <= k <= s@.len(),
            digits_end(s@, start as int) == digits_end(s@, k as int),
            forall|j: int| start <= j < k ==> is_digit(#[trigger] s@[j]),
        decreases s@.len() - k,
    {
        k = k + 1;
    }
    k
}

proof fn lemma_digits_step(s: Seq<char>, a: int, k: int)
    requires
        0 <= a <= k < s.len(),
    ensures
        digits_value(s.subrange(a, k + 1)) == digits_value(s.subrange(a, k)) * 10 + digit_value(s[k]),
{
    assert(s.subrange(a, k + 1).drop_last() =~= s.subrange(a, k));
}

/// The port that the digits of `s` from `a` to `b` write, where it fits in 16 bits.
pub fn port_from_digits(s: &Vec<char>, a: usize, b: usize) -> (r: Option<u16>)
    requires
        a <= b <= s@.len(),
        forall|j: int| a <= j < b ==> is_digit(#[trigger] s@[j]),
    ensures
        r == port_of(Some(s@.subrange(a as int, b as int))),
{
    let mut acc: u32 = 0;
    let mut k = a;
    assert(s@.subrange(a as int, a as int) =~= Seq::<char>::empty());
    while k < b
        invariant
            a <= k <= b <= s@.len(),
            forall|j: int| a <= j < b ==> is_digit(#[trigger] s@[j]),
            acc as nat == if digits_value(s@.subrange(a as int, k as int)) <= 65536 {
                digits_value(s@.subrange(a as int, k as int))
            } else {
                65536
            },
        decreases b - k,
    {
        let c = s[k];
        assert(is_digit(s@[k as int]));
        let d: u32 = (c as u32) - ('0' as u32);
        let ghost prev = digits_value(s@.subrange(a as int, k as int));
        proof {
            lemma_digits_step(s@, a as int, k as int);
        }
        assert(digit_value(s@[k as int]) == d);
        let next: u32 = acc * 10 + d;
        acc = if next > 65536 {
            65536
        } else {
            next
        };
        k = k + 1;
        assert(digits_value(s@.subrange(a as int, k as int)) == prev * 10 + d);
    }
    if acc <= 65535 {
        Some(acc as u16)
    } else {
        None
    }
}

fn banner_at_exec(s: &Vec<char>, pat: &Vec<char>, i: usize) -> (r: Option<(usize, usize)>)
    requires
        pat@ == banner(),
    ensures
        match r {
            Some((a, b)) => {
                &&& a <= b <= s@.len()
                &&& (forall|j: int| a <= j < b ==> is_digit(#[trigger] s@[j]))
                &&& banner_at(s@, i as int) == Some(s@.subrange(a as int, b as int))
            },
            None => banner_at(s@, i as int) is None,
        },
{
    if !occurs_at_exec(s, pat, i) {
        return None;
    }
    let n = s.len();
    assert(i + pat@.len() <= n);
    let h = i + pat.len();
    let c = colon_from_exec(s, h);
    if h < c && c < s.len() {
        let e = digits_end_exec(s, c + 1);
        if c + 1 < e {
            return Some((c + 1, e));
        }
    }
    None
}

/// The port of the leftmost ready banner in `s`, where its digits fit in 16 bits.
pub fn banner_port(s: &Vec<char>) -> (r: Option<u16>)
    ensures
        r == port_of(banner_from(s@, 0)),
{
    let pat = chars_vec("CodeNomad Server is ready at http://");
    let n = s.len();
    let mut i: usize = 0;
    while i < n
        invariant
            n == s@.len(),
            i <= n,
            pat@ == banner(),
            banner_from(s@, 0) == banner_from(s@, i as int),
        decreases n - i,
    {
        match banner_at_exec(s, &pat, i) {
            Some((a, b)) => {
                return port_from_digits(s, a, b);
            },
            None => {},
        }
        i = i + 1;
    }
    None
}

fn last_colon_digit_exec(s: &Vec<char>) -> (r: Option<usize>)
    ensures
        match r {
            Some(j) => j as int == last_colon_digit(s@, s@.len() as int) && j + 1 < s@.len(),
            None => last_colon_digit(s@, s@.len() as int) < 0,
        },
{
    let mut k = s.len();
    while k > 0
        invariant
            k <= s@.len(),
            last_colon_digit(s@, s@.len() as int) == last_colon_digit(s@, k as int),
        decreases k,
    {
        if s[k - 1] == ':' && k < s.len() && '0' <= s[k] && s[k] <= '9' {
            return Some(k - 1);
        }
        k = k - 1;
    }
    None
}

/// The port of the trailing `:PORT` token of `s`, where it has two to five digits
/// that fit in 16 bits.
pub fn trailing_port(s: &Vec<char>) -> (r: Option<u16>)
    ensures
        r == port_of(trailing_digits(s@)),
{
    match last_colon_digit_exec(s) {
        Some(j) => {
            let n = s.len();
            assert(j + 1 < n);
            let e = digits_end_exec(s, j + 1);
            if 2 <= e - (j + 1) && e - (j + 1) <= 5 {
                port_from_digits(s, j + 1, e)
            } else {
                None
            }
        },
        None => None,
    }
}

/// The port that `line` announces, given its lower-case form `lowered` and the
/// unsigned `port` field that it holds as a JSON object, if any.
pub fn ready_signal_from(line: &str, lowered: &str, json_port: Option<u64>) -> (r: Option<u16>)
    ensures
        r == ready_signal(line@, lowered@, json_port),
{
    let chars = chars_vec(line);
    let banner = banner_port(&chars);
    if banner.is_some() {
        return banner;
    }
    if !contains_exec(&chars_vec(lowered), &chars_vec("http server listening")) {
        return None;
    }
    let trailing = trailing_port(&chars);
    if trailing.is_some() {
        return trailing;
    }
    match json_port {
        Some(n) => if n <= 65535 {
            Some(n as u16)
        } else {
            None
        },
        None => None,
    }
}

/// The port that `line` announces as the server's readiness signal, if any.
pub fn extract_ready_signal(line: &str) -> (r: Option<u16>)
    ensures
        r == ready_signal(line@, lower_of(line@), json_u64_field_of(line@, "port"@)),
{
    let lowered = lowercase(line);
    let mentions = contains_exec(&chars_vec(lowered.as_str()), &chars_vec("http server listening"));
    let json_port = if mentions {
        json_u64_field(line, "port")
    } else {
        None
    };
    proof {
        reveal_strlit("http server listening");
    }
    ready_signal_from(line, lowered.as_str(), json_port)
}

/// The port to declare readiness on for one output line: none for an empty line or
/// once readiness was declared in this run (the line is then only drained), else
/// the line's readiness signal.
pub fn scan_line(already_ready: bool, line: &str) -> (r: Option<u16>)
    ensures
        already_ready || line@.len() == 0 ==> r is None,
        !already_ready && line@.len() > 0 ==> r == ready_signal(
            line@,
            lower_of(line@),
            json_u64_field_of(line@, "port"@),
        ),
{
    if already_ready || line.unicode_len() == 0 {
        None
    } else {
        extract_ready_signal(line)
    }
}

} // verus!
