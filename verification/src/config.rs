//! Parsing of the configured client registries: a raw configuration value
//! is split on commas and each entry is trimmed of surrounding whitespace.

use vstd::prelude::*;
use vstd::string::StrSliceExecFns;

verus! {

/// ASCII whitespace, as far as trimming is concerned.
pub open spec fn spec_is_space(c: char) -> bool {
    c == ' ' || c == '\t' || c == '\n' || c == '\r'
}

/// `s` without its leading whitespace.
pub open spec fn spec_trim_start(s: Seq<char>) -> Seq<char>
    decreases s.len(),
{
    if s.len() > 0 && spec_is_space(s[0]) {
        spec_trim_start(s.subrange(1, s.len() as int))
    } else {
        s
    }
}

/// `s` without its trailing whitespace.
pub open spec fn spec_trim_end(s: Seq<char>) -> Seq<char>
    decreases s.len(),
{
    if s.len() > 0 && spec_is_space(s[s.len() - 1]) {
        spec_trim_end(s.subrange(0, s.len() - 1))
    } else {
        s
    }
}

/// `s` without surrounding whitespace.
pub open spec fn spec_trim(s: Seq<char>) -> Seq<char> {
    spec_trim_end(spec_trim_start(s))
}

/// Index of the first comma at or after `i`, or the length of `s`.
pub open spec fn spec_comma_end(s: Seq<char>, i: int) -> int
    decreases s.len() - i,
{
    if i < s.len() && s[i] != ',' {
        spec_comma_end(s, i + 1)
    } else {
        i
    }
}

proof fn lemma_comma_end_bounds(s: Seq<char>, i: int)
    requires
        0 <= i <= s.len(),
    ensures
        i <= spec_comma_end(s, i) <= s.len(),
    decreases s.len() - i,
{
    if i < s.len() && s[i] != ',' {
        lemma_comma_end_bounds(s, i + 1);
    }
}

/// The comma-separated segments of `s` from position `i` on, untrimmed.
/// One comma separates two segments, so an empty input holds one empty
/// segment.
pub open spec fn spec_split_from(s: Seq<char>, i: int) -> Seq<Seq<char>>
    decreases s.len() - i when 0 <= i <= s.len() via spec_split_from_decreases
{
    let e = spec_comma_end(s, i);
    if e >= s.len() {
        seq![s.subrange(i, s.len() as int)]
    } else {
        seq![s.subrange(i, e)] + spec_split_from(s, e + 1)
    }
}

#[via_fn]
proof fn spec_split_from_decreases(s: Seq<char>, i: int) {
    lemma_comma_end_bounds(s, i);
}

/// The comma-separated segments of `s`, untrimmed.
pub open spec fn spec_split_commas(s: Seq<char>) -> Seq<Seq<char>> {
    spec_split_from(s, 0)
}

proof fn lemma_trim_start_range(s: Seq<char>, a: int, ts: int, b: int)
    requires
        0 <= a <= ts <= b <= s.len(),
        forall|j: int| a <= j < ts ==> spec_is_space(s[j]),
        ts < b ==> !spec_is_space(s[ts]),
    ensures
        spec_trim_start(s.subrange(a, b)) == s.subrange(ts, b),
    decreases ts - a,
{
    if a < ts {
        assert(s.subrange(a, b)[0] == s[a]);
        assert(s.subrange(a, b).subrange(1, b - a) =~= s.subrange(a + 1, b));
        lemma_trim_start_range(s, a + 1, ts, b);
    } else {
        if ts < b {
            assert(s.subrange(ts, b)[0] == s[ts]);
        }
    }
}

proof fn lemma_trim_end_range(s: Seq<char>, a: int, te: int, b: int)
    requires
        0 <= a <= te <= b <= s.len(),
        forall|j: int| te <= j < b ==> spec_is_space(s[j]),
        a < te ==> !spec_is_space(s[te - 1]),
    ensures
        spec_trim_end(s.subrange(a, b)) == s.subrange(a, te),
    decreases b - te,
{
    if te < b {
        assert(s.subrange(a, b)[b - a - 1] == s[b - 1]);
        assert(s.subrange(a, b).subrange(0, b - a - 1) =~= s.subrange(a, b - 1));
        lemma_trim_end_range(s, a, te, b - 1);
    } else {
        if a < te {
            assert(s.subrange(a, b)[te - a - 1] == s[te - 1]);
        }
    }
}

/// Whether `c` counts as trimmable whitespace.
fn is_space_char(c: char) -> (r: bool)
    ensures
        r == spec_is_space(c),
{
    c == ' ' || c == '\t' || c == '\n' || c == '\r'
}

/// Splits a raw registry value on commas and trims each entry of
/// surrounding whitespace.
pub fn parse_client_list(raw: &str) -> (r: Vec<String>)
    ensures
        r@.len() == spec_split_commas(raw@).len(),
        forall|i: int| 0 <= i < r@.len() ==> r@[i]@ == spec_trim(spec_split_commas(raw@)[i]),
{
    let n = raw.unicode_len();
    let mut out: Vec<String> = Vec::new();
    let ghost mut done: Seq<Seq<char>> = Seq::empty();
    let mut seg_start: usize = 0;
    let mut more: usize = 1;
    proof {
        assert(spec_split_commas(raw@) =~= done + spec_split_from(raw@, 0));
    }
    while more == 1
        invariant
            n == raw@.len(),
            more <= 1,
            more == 1 ==> seg_start <= n,
            done.len() == out@.len(),
            forall|i: int| 0 <= i < out@.len() ==> out@[i]@ == spec_trim(done[i]),
            spec_split_commas(raw@) == done + (if more == 1 {
                spec_split_from(raw@, seg_start as int)
            } else {
                Seq::<Seq<char>>::empty()
            }),
        decreases n - seg_start + more,
    {
        let mut e: usize = seg_start;
        while e < n && raw.get_char(e) != ','
            invariant
                n == raw@.len(),
                seg_start <= e <= n,
                spec_comma_end(raw@, seg_start as int) == spec_comma_end(raw@, e as int),
            decreases n - e,
        {
            e = e + 1;
        }
        proof {
            assert(spec_comma_end(raw@, e as int) == e);
        }
        let mut ts: usize = seg_start;
        while ts < e && is_space_char(raw.get_char(ts))
            invariant
                n == raw@.len(),
                e <= n,
                seg_start <= ts <= e,
                forall|j: int| seg_start <= j < ts ==> spec_is_space(raw@[j]),
            decreases e - ts,
        {
            ts = ts + 1;
        }
        let mut te: usize = e;
        while te > ts && is_space_char(raw.get_char(te - 1))
            invariant
                n == raw@.len(),
                e <= n,
                ts <= te <= e,
                forall|j: int| te <= j < e ==> spec_is_space(raw@[j]),
            decreases te,
        {
            te = te - 1;
        }
        let entry = raw.substring_char(ts, te).to_owned();
        proof {
            let seg = raw@.subrange(seg_start as int, e as int);
            lemma_trim_start_range(raw@, seg_start as int, ts as int, e as int);
            lemma_trim_end_range(raw@, ts as int, te as int, e as int);
            assert(spec_trim(seg) == raw@.subrange(ts as int, te as int));
        }
        out.push(entry);
        proof {
            let seg = raw@.subrange(seg_start as int, e as int);
            if e >= n {
                assert(spec_split_from(raw@, seg_start as int) =~= seq![seg]);
                assert(done + seq![seg] + Seq::<Seq<char>>::empty() =~= done + seq![seg]);
            } else {
                assert(spec_split_from(raw@, seg_start as int) == seq![seg] + spec_split_from(
                    raw@,
                    e + 1,
                ));
                assert(done + (seq![seg] + spec_split_from(raw@, e + 1)) =~= (done + seq![seg])
                    + spec_split_from(raw@, e + 1));
            }
            done = done + seq![seg];
        }
        if e >= n {
            more = 0;
        } else {
            seg_start = e + 1;
        }
    }
    proof {
        assert(done + Seq::<Seq<char>>::empty() =~= done);
    }
    out
}

} // verus!
