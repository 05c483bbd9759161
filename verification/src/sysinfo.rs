//! Host information for the status report, and the parsing of the host's
//! uptime reading.

use vstd::prelude::*;
use vstd::string::StrSliceExecFns;

verus! {

/// What the status report says about the host and process.
#[derive(Debug)]
pub struct SysInfo {
    pub uptime: usize,
    pub version: String,
    pub uptime_app: u64,
    pub time_zone: String,
}

/// The numeric value of a run of decimal digits, most significant first.
pub open spec fn spec_dec_value(s: Seq<char>) -> nat
    decreases s.len(),
{
    if s.len() == 0 {
        0
    } else {
        (spec_dec_value(s.drop_last()) * 10 + (s.last() as int - 48)) as nat
    }
}

/// Is every character a decimal digit.
pub open spec fn spec_all_digits(s: Seq<char>) -> bool {
    forall|i: int| 0 <= i < s.len() ==> 48 <= (#[trigger] s[i]) as int <= 57
}

/// What the host's uptime reading means: the whole seconds before the
/// first dot — zero when there is no dot, when nothing stands before it,
/// when a non-digit stands there, or when the value does not fit.
pub open spec fn spec_uptime(s: Seq<char>) -> nat {
    if exists|p: int| 0 <= p < s.len() && s[p] == '.' {
        let p = choose|p: int|
            0 <= p < s.len() && s[p] == '.' && forall|q: int| 0 <= q < p ==> s[q] != '.';
        let prefix = s.subrange(0, p);
        if prefix.len() > 0 && spec_all_digits(prefix) && spec_dec_value(prefix) <= usize::MAX {
            spec_dec_value(prefix)
        } else {
            0
        }
    } else {
        0
    }
}

/// A first dot exists whenever any dot exists.
proof fn lemma_first_dot(s: Seq<char>, p: int)
    requires
        0 <= p < s.len(),
        s[p] == '.',
        forall|q: int| 0 <= q < p ==> s[q] != '.',
    ensures
        spec_uptime(s) == {
            let prefix = s.subrange(0, p);
            if prefix.len() > 0 && spec_all_digits(prefix) && spec_dec_value(prefix)
                <= usize::MAX {
                spec_dec_value(prefix)
            } else {
                0
            }
        },
{
    let chosen = choose|p2: int|
        0 <= p2 < s.len() && s[p2] == '.' && forall|q: int| 0 <= q < p2 ==> s[q] != '.';
    if chosen < p {
        assert(s[chosen] != '.');
    }
    if p < chosen {
        assert(s[p] != '.');
    }
    assert(chosen == p);
}

/// Extending a run of digits never shrinks its value.
proof fn lemma_dec_value_monotone(s: Seq<char>, i: int, j: int)
    requires
        0 <= i <= j <= s.len(),
        spec_all_digits(s.subrange(0, j)),
    ensures
        spec_dec_value(s.subrange(0, i)) <= spec_dec_value(s.subrange(0, j)),
    decreases j - i,
{
    if i < j {
        assert(s.subrange(0, j - 1) =~= s.subrange(0, j).subrange(0, j - 1));
        lemma_dec_value_monotone(s, i, j - 1);
        let t = s.subrange(0, j);
        assert(t.drop_last() =~= s.subrange(0, j - 1));
        assert(48 <= t[j - 1] as int <= 57);
        assert(spec_dec_value(t) == (spec_dec_value(t.drop_last()) * 10 + (t.last() as int - 48)));
        assert(spec_dec_value(t.drop_last()) * 10 >= spec_dec_value(t.drop_last()));
    }
}

impl SysInfo {
    /// Read the whole seconds out of the host's uptime text: the digits
    /// before the first dot; anything out of shape or range reads as zero.
    pub fn parse_uptime(s: &str) -> (r: usize)
        ensures
            r == spec_uptime(s@),
    {
        let len: usize = s.unicode_len();
        let mut dot: usize = 0;
        while dot < len && s.get_char(dot) != '.'
            invariant
                dot <= len,
                len == s@.len(),
                forall|q: int| 0 <= q < dot ==> s@[q] != '.',
            decreases len - dot,
        {
            dot = dot + 1;
        }
        if dot == len {
            // no dot at all
            assert(forall|q: int| 0 <= q < s@.len() ==> s@[q] != '.');
            return 0;
        }
        proof {
            lemma_first_dot(s@, dot as int);
        }
        if dot == 0 {
            return 0;
        }
        let ghost prefix = s@.subrange(0, dot as int);
        let mut value: usize = 0;
        let mut i: usize = 0;
        proof {
            assert(prefix.subrange(0, 0) =~= s@.subrange(0, 0));
        }
        while i < dot
            invariant
                i <= dot,
                0 < dot < len,
                len == s@.len(),
                s@[dot as int] == '.',
                forall|q: int| 0 <= q < dot ==> s@[q] != '.',
                prefix == s@.subrange(0, dot as int),
                spec_all_digits(s@.subrange(0, i as int)),
                value == spec_dec_value(s@.subrange(0, i as int)),
            decreases dot - i,
        {
            let c = s.get_char(i);
            let code: u32 = c as u32;
            if code < 48 || code > 57 {
                proof {
                    lemma_first_dot(s@, dot as int);
                    assert(prefix[i as int] == s@[i as int]);
                }
                return 0;
            }
            let d: usize = (code - 48) as usize;
            if value > (usize::MAX - d) / 10 {
                // the full prefix can only read larger still
                proof {
                    lemma_first_dot(s@, dot as int);
                    let t = s@.subrange(0, i + 1);
                    assert(t.drop_last() =~= s@.subrange(0, i as int));
                    assert(t.last() == s@[i as int]);
                    assert(spec_dec_value(t) > usize::MAX);
                    if spec_all_digits(prefix) {
                        assert(prefix.subrange(0, i + 1) =~= t);
                        lemma_dec_value_monotone(s@, i + 1, dot as int);
                    }
                }
                return 0;
            }
            proof {
                let t = s@.subrange(0, i + 1);
                assert(t.drop_last() =~= s@.subrange(0, i as int));
                assert(t.last() == s@[i as int]);
                assert(forall|q: int|
                    0 <= q < i + 1 ==> 48 <= (#[trigger] s@.subrange(0, i + 1)[q]) as int <= 57);
            }
            value = value * 10 + d;
            i = i + 1;
        }
        proof {
            assert(s@.subrange(0, i as int) =~= prefix);
        }
        value
    }

    /// Combine the plain readings into the host snapshot.
    pub fn new(uptime: usize, uptime_app: u64, time_zone: String, version: String) -> (r: SysInfo)
        ensures
            r.uptime == uptime,
            r.uptime_app == uptime_app,
            r.time_zone == time_zone,
            r.version == version,
    {
        SysInfo { uptime, version, uptime_app, time_zone }
    }
}

} // verus!
