use vstd::prelude::*;

verus! {

/// Unicode white space, as `char::is_whitespace` defines it.
pub open spec fn is_white(c: char) -> bool {
    let u = c as u32;
    (9 <= u && u <= 13) || u == 32 || u == 0x85 || u == 0xa0 || u == 0x1680 || (0x2000 <= u && u
        <= 0x200a) || u == 0x2028 || u == 0x2029 || u == 0x202f || u == 0x205f || u == 0x3000
}

/// The index just after the last `c` in `s[lo..end]`, or `lo` if there is none.
pub open spec fn after_last_in(s: Seq<char>, c: char, lo: int, end: int) -> int
    decreases end - lo,
{
    if end <= lo {
        lo
    } else if s[end - 1] == c {
        end
    } else {
        after_last_in(s, c, lo, end - 1)
    }
}

/// The start of `s[lo..hi]` once leading white space is dropped.
pub open spec fn trim_start_in(s: Seq<char>, lo: int, hi: int) -> int
    decreases hi - lo,
{
    if lo < hi && is_white(s[lo]) {
        trim_start_in(s, lo + 1, hi)
    } else {
        lo
    }
}

/// The end of `s[lo..hi]` once trailing white space is dropped.
pub open spec fn trim_end_in(s: Seq<char>, lo: int, hi: int) -> int
    decreases hi - lo,
{
    if lo < hi && is_white(s[hi - 1]) {
        trim_end_in(s, lo, hi - 1)
    } else {
        hi
    }
}

/// `s[lo..hi]` with white space dropped at both ends.
pub open spec fn trimmed_in(s: Seq<char>, lo: int, hi: int) -> Seq<char> {
    s.subrange(trim_start_in(s, lo, hi), trim_end_in(s, trim_start_in(s, lo, hi), hi))
}

/// The end of a line of `s` from `start` whose line feed stands at `i`: a
/// carriage return just before the line feed belongs to the line ending.
pub open spec fn cr_end(s: Seq<char>, start: int, i: int) -> int {
    if i > start && s[i - 1] == '\r' {
        i - 1
    } else {
        i
    }
}

/// Whether `needle` occurs in `s[lo..hi]`.
pub open spec fn window_contains(s: Seq<char>, lo: int, hi: int, needle: Seq<char>) -> bool {
    exists|j: int| lo <= j && j + needle.len() <= hi && #[trigger] s.subrange(j, j + needle.len()) == needle
}

/// The bounds of the first line of `s` that contains `needle`, scanning from
/// index `i` within the line that starts at `start`. Lines end at a line feed
/// or a carriage return and line feed; the last line needs no ending.
pub open spec fn first_line_with(s: Seq<char>, needle: Seq<char>, start: int, i: int) -> Option<
    (int, int),
>
    decreases s.len() - i,
{
    if i >= s.len() {
        if start < s.len() && window_contains(s, start, s.len() as int, needle) {
            Some((start, s.len() as int))
        } else {
            None
        }
    } else if s[i] == '\n' {
        if window_contains(s, start, cr_end(s, start, i), needle) {
            Some((start, cr_end(s, start, i)))
        } else {
            first_line_with(s, needle, i + 1, i + 1)
        }
    } else {
        first_line_with(s, needle, start, i + 1)
    }
}

/// The last line of `s`, if it has any line.
pub open spec fn last_line_of(s: Seq<char>) -> Option<Seq<char>> {
    if s.len() == 0 {
        None
    } else if s.last() == '\n' {
        let a = after_last_in(s, '\n', 0, s.len() - 1);
        Some(s.subrange(a, cr_end(s, a, s.len() - 1)))
    } else {
        Some(s.subrange(after_last_in(s, '\n', 0, s.len() as int), s.len() as int))
    }
}

/// The label of the line of `ipconfig` output that holds the IPv4 address.
pub open spec fn ipv4_label() -> Seq<char> {
    "IPv4 Address"@
}

/// The address on the first line that carries the IPv4 label: what follows
/// the line's last colon, trimmed.
pub open spec fn ipv4_address_of(s: Seq<char>) -> Option<Seq<char>> {
    match first_line_with(s, ipv4_label(), 0, 0) {
        Some((a, b)) => Some(trimmed_in(s, after_last_in(s, ':', a, b), b)),
        None => None,
    }
}

fn chars_of(s: &str) -> (r: Vec<char>)
    ensures
        r@ == s@,
{
    let n = s.unicode_len();
    let mut v: Vec<char> = Vec::new();
    let mut i: usize = 0;
    while i < n
        invariant
            n == s@.len(),
            i <= n,
            v@ == s@.subrange(0, i as int),
        decreases n - i,
    {
        v.push(s.get_char(i));
        i += 1;
    }
    assert(v@ == s@);
    v
}

fn is_white_char(c: char) -> (r: bool)
    ensures
        r == is_white(c),
{
    let u = c as u32;
    (9 <= u && u <= 13) || u == 32 || u == 0x85 || u == 0xa0 || u == 0x1680 || (0x2000 <= u && u
        <= 0x200a) || u == 0x2028 || u == 0x2029 || u == 0x202f || u == 0x205f || u == 0x3000
}

fn after_last_index(cs: &Vec<char>, c: char, lo: usize, hi: usize) -> (r: usize)
    requires
        lo <= hi <= cs@.len(),
    ensures
        r as int == after_last_in(cs@, c, lo as int, hi as int),
        lo <= r <= hi,
{
    let mut end = hi;
    while end > lo && cs[end - 1] != c
        invariant
            lo <= end <= hi <= cs@.len(),
            after_last_in(cs@, c, lo as int, end as int) == after_last_in(
                cs@,
                c,
                lo as int,
                hi as int,
            ),
        decreases end,
    {
        end -= 1;
    }
    end
}

fn trim_range(cs: &Vec<char>, lo: usize, hi: usize) -> (r: (usize, usize))
    requires
        lo <= hi <= cs@.len(),
    ensures
        r.0 as int == trim_start_in(cs@, lo as int, hi as int),
        r.1 as int == trim_end_in(cs@, r.0 as int, hi as int),
        lo <= r.0 <= r.1 <= hi,
{
    let mut a = lo;
    while a < hi && is_white_char(cs[a])
        invariant
            lo <= a <= hi <= cs@.len(),
            trim_start_in(cs@, a as int, hi as int) == trim_start_in(cs@, lo as int, hi as int),
        decreases hi - a,
    {
        a += 1;
    }
    let mut b = hi;
    while a < b && is_white_char(cs[b - 1])
        invariant
            a <= b <= hi <= cs@.len(),
            trim_end_in(cs@, a as int, b as int) == trim_end_in(cs@, a as int, hi as int),
        decreases b,
    {
        b -= 1;
    }
    (a, b)
}

fn contains_in(cs: &Vec<char>, lo: usize, hi: usize, needle: &Vec<char>) -> (r: bool)
    requires
        lo <= hi <= cs@.len(),
    ensures
        r == window_contains(cs@, lo as int, hi as int, needle@),
{
    let n = needle.len();
    if n > hi - lo {
        return false;
    }
    if n == 0 {
        assert(cs@.subrange(lo as int, lo as int + needle@.len()) =~= needle@);
        return true;
    }
    let mut k = lo;
    while k <= hi - n
        invariant
            lo <= k <= hi - n + 1,
            n >= 1,
            n == needle@.len(),
            n <= hi - lo,
            hi <= cs@.len(),
            forall|j: int|
                lo <= j < k ==> #[trigger] cs@.subrange(j, j + n as int) != needle@,
        decreases hi - k,
    {
        let mut m: usize = 0;
        while m < n && cs[k + m] == needle[m]
            invariant
                m <= n,
                k + n <= hi <= cs@.len(),
                n == needle@.len(),
                forall|t: int| 0 <= t < m ==> cs@[k + t] == needle@[t],
            decreases n - m,
        {
            m += 1;
        }
        if m == n {
            assert(cs@.subrange(k as int, k + n as int) =~= needle@);
            return true;
        }
        assert(cs@.subrange(k as int, k + n as int)[m as int] != needle@[m as int]);
        k += 1;
    }
    false
}

fn first_line_range(cs: &Vec<char>, needle: &Vec<char>) -> (r: Option<(usize, usize)>)
    ensures
        match r {
            Some((a, b)) => first_line_with(cs@, needle@, 0, 0) == Some((a as int, b as int)) && a
                <= b <= cs@.len(),
            None => first_line_with(cs@, needle@, 0, 0) is None,
        },
{
    let n = cs.len();
    let mut start: usize = 0;
    let mut i: usize = 0;
    while i < n
        invariant
            start <= i <= n,
            n == cs@.len(),
            first_line_with(cs@, needle@, start as int, i as int) == first_line_with(
                cs@,
                needle@,
                0,
                0,
            ),
        decreases n - i,
    {
        if cs[i] == '\n' {
            let e = if i > start && cs[i - 1] == '\r' {
                i - 1
            } else {
                i
            };
            if contains_in(cs, start, e, needle) {
                return Some((start, e));
            }
            start = i + 1;
        }
        i += 1;
    }
    if start < n && contains_in(cs, start, n, needle) {
        Some((start, n))
    } else {
        None
    }
}

/// The last line of `text`, without its line ending; `None` for an empty
/// text. Lines end at a line feed or at a carriage return and line feed.
pub fn last_line(text: &str) -> (r: Option<String>)
    ensures
        match r {
            Some(l) => last_line_of(text@) == Some(l@),
            None => last_line_of(text@) is None,
        },
{
    let cs = chars_of(text);
    let n = cs.len();
    if n == 0 {
        return None;
    }
    if cs[n - 1] == '\n' {
        let a = after_last_index(&cs, '\n', 0, n - 1);
        let e = if n - 1 > a && cs[n - 2] == '\r' {
            n - 2
        } else {
            n - 1
        };
        Some(text.substring_char(a, e).to_owned())
    } else {
        let a = after_last_index(&cs, '\n', 0, n);
        Some(text.substring_char(a, n).to_owned())
    }
}

/// The IPv4 address that `ipconfig` reports: on the first line that carries
/// the label "IPv4 Address", what follows its last colon, trimmed of white
/// space. `None` if no line carries the label.
pub fn ipconfig_ipv4_address(output: &str) -> (r: Option<String>)
    ensures
        match r {
            Some(a) => ipv4_address_of(output@) == Some(a@),
            None => ipv4_address_of(output@) is None,
        },
{
    let cs = chars_of(output);
    let label = chars_of("IPv4 Address");
    match first_line_range(&cs, &label) {
        Some((a, b)) => {
            let c = after_last_index(&cs, ':', a, b);
            let (t, u) = trim_range(&cs, c, b);
            Some(output.substring_char(t, u).to_owned())
        },
        None => None,
    }
}

} // verus!
