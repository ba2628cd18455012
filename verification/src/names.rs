//! Metric-safe names derived from target names and URLs.

use vstd::prelude::*;
use crate::text::{chars_of, string_of, is_ascii_letter, char_is_ascii_letter};

verus! {

/// `s` with each leftmost, non-overlapping `://` replaced by `-`.
pub open spec fn scheme_joined(s: Seq<char>) -> Seq<char>
    decreases s.len(),
{
    if s.len() == 0 {
        s
    } else if s.len() >= 3 && s[0] == ':' && s[1] == '/' && s[2] == '/' {
        seq!['-'] + scheme_joined(s.subrange(3, s.len() as int))
    } else {
        seq![s[0]] + scheme_joined(s.subrange(1, s.len() as int))
    }
}

/// A letter stays; anything else becomes an underscore.
pub open spec fn metric_char(c: char) -> char {
    if is_ascii_letter(c) { c } else { '_' }
}

/// The metric-safe form of a name: scheme separators joined, then every
/// character that is not a letter replaced by an underscore.
pub open spec fn normalized(s: Seq<char>) -> Seq<char> {
    scheme_joined(s).map_values(|c: char| metric_char(c))
}

/// Every character is a letter or an underscore.
pub open spec fn is_metric_safe(s: Seq<char>) -> bool {
    forall|i: int| 0 <= i < s.len() ==> metric_char(#[trigger] s[i]) == s[i]
}

/// The name of the success counter of a target.
pub open spec fn counter_name_of(s: Seq<char>) -> Seq<char> {
    normalized(s) + "_success"@
}

/// The name of the latency histogram of a target.
pub open spec fn timer_name_of(s: Seq<char>) -> Seq<char> {
    normalized(s) + "_time_ms"@
}

/// How `normalized` consumes the front of a non-empty name.
pub proof fn lemma_normalized_step(s: Seq<char>)
    requires
        s.len() > 0,
    ensures
        s.len() >= 3 && s[0] == ':' && s[1] == '/' && s[2] == '/' ==> normalized(s) == seq!['_']
            + normalized(s.subrange(3, s.len() as int)),
        !(s.len() >= 3 && s[0] == ':' && s[1] == '/' && s[2] == '/') ==> normalized(s)
            == seq![metric_char(s[0])] + normalized(s.subrange(1, s.len() as int)),
{
    let f = |c: char| metric_char(c);
    if s.len() >= 3 && s[0] == ':' && s[1] == '/' && s[2] == '/' {
        let rest = scheme_joined(s.subrange(3, s.len() as int));
        assert((seq!['-'] + rest).map_values(f) =~= seq!['_'] + rest.map_values(f));
    } else {
        let rest = scheme_joined(s.subrange(1, s.len() as int));
        assert((seq![s[0]] + rest).map_values(f) =~= seq![metric_char(s[0])] + rest.map_values(
            f,
        ));
    }
}

/// A normalized name holds only letters and underscores.
pub proof fn lemma_normalized_is_safe(s: Seq<char>)
    ensures
        is_metric_safe(normalized(s)),
{
    let n = normalized(s);
    assert forall|i: int| 0 <= i < n.len() implies metric_char(#[trigger] n[i]) == n[i] by {
        let c = scheme_joined(s)[i];
        assert(n[i] == metric_char(c));
    }
}

/// A name without a colon has no scheme separator to join.
proof fn lemma_scheme_joined_fixed(s: Seq<char>)
    requires
        forall|i: int| 0 <= i < s.len() ==> #[trigger] s[i] != ':',
    ensures
        scheme_joined(s) == s,
    decreases s.len(),
{
    if s.len() > 0 {
        assert(s[0] != ':');
        let t = s.subrange(1, s.len() as int);
        assert forall|i: int| 0 <= i < t.len() implies #[trigger] t[i] != ':' by {
            assert(t[i] == s[i + 1]);
        }
        lemma_scheme_joined_fixed(t);
        assert(seq![s[0]] + t =~= s);
    }
}

/// Normalizing leaves a metric-safe name as it is.
pub proof fn lemma_normalized_fixes_safe(s: Seq<char>)
    requires
        is_metric_safe(s),
    ensures
        normalized(s) == s,
{
    assert forall|i: int| 0 <= i < s.len() implies #[trigger] s[i] != ':' by {
        assert(metric_char(s[i]) == s[i]);
    }
    lemma_scheme_joined_fixed(s);
    assert(normalized(s) =~= s);
}

/// Normalizing twice gives the same name as normalizing once.
pub proof fn lemma_normalize_idempotent(s: Seq<char>)
    ensures
        normalized(normalized(s)) == normalized(s),
{
    lemma_normalized_is_safe(s);
    lemma_normalized_fixes_safe(normalized(s));
}

/// The metric-safe form of `name`, as characters.
pub fn normalize_chars(name: &Vec<char>) -> (out: Vec<char>)
    ensures
        out@ == normalized(name@),
{
    let n: usize = name.len();
    let mut out: Vec<char> = Vec::new();
    let mut i: usize = 0;
    proof {
        assert(name@.subrange(0, n as int) =~= name@);
        assert(out@ + normalized(name@) =~= normalized(name@));
    }
    while i < n
        invariant
            n == name@.len(),
            i <= n,
            normalized(name@) == out@ + normalized(name@.subrange(i as int, n as int)),
        decreases n - i,
    {
        let ghost rest = name@.subrange(i as int, n as int);
        proof {
            lemma_normalized_step(rest);
        }
        if n - i >= 3 && name[i] == ':' && name[i + 1] == '/' && name[i + 2] == '/' {
            proof {
                assert(rest.subrange(3, rest.len() as int) =~= name@.subrange(i + 3, n as int));
                assert(out@.push('_') + normalized(name@.subrange(i + 3, n as int)) =~= out@ + (
                seq!['_'] + normalized(name@.subrange(i + 3, n as int))));
            }
            out.push('_');
            i = i + 3;
        } else {
            let c = name[i];
            let m = if char_is_ascii_letter(c) { c } else { '_' };
            proof {
                assert(rest.subrange(1, rest.len() as int) =~= name@.subrange(i + 1, n as int));
                assert(out@.push(m) + normalized(name@.subrange(i + 1, n as int)) =~= out@ + (
                seq![m] + normalized(name@.subrange(i + 1, n as int))));
            }
            out.push(m);
            i = i + 1;
        }
    }
    proof {
        assert(name@.subrange(n as int, n as int) =~= Seq::<char>::empty());
        assert(normalized(Seq::<char>::empty()) =~= Seq::<char>::empty());
        assert(out@ + Seq::<char>::empty() =~= out@);
    }
    out
}

/// The metric-safe form of `s`: `://` becomes `-`, and then every
/// character that is not a letter becomes `_`.
pub fn normalize_name(s: String) -> (r: String)
    ensures
        r@ == normalized(s@),
{
    let v = chars_of(s.as_str());
    let out = normalize_chars(&v);
    string_of(&out)
}

/// `<normalized>_success`, the counter of successful requests.
pub fn counter_success_name(s: String) -> (r: String)
    ensures
        r@ == counter_name_of(s@),
{
    let mut r = normalize_name(s);
    r.append("_success");
    r
}

/// `<normalized>_time_ms`, the histogram of request latencies.
pub fn timer_name(name: String) -> (r: String)
    ensures
        r@ == timer_name_of(name@),
{
    let mut r = normalize_name(name);
    r.append("_time_ms");
    r
}

} // verus!
