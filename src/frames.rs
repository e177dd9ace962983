//! Finding the newest frame among the artifacts that the game writes,
//! named `frame_<n>.png` with `n` a decimal index.
use vstd::prelude::*;
use crate::text::matches_at;

verus! {

pub open spec fn is_digit(c: char) -> bool {
    '0' <= c && c <= '9'
}

pub open spec fn all_digits(s: Seq<char>) -> bool {
    forall|i: int| 0 <= i < s.len() ==> is_digit(#[trigger] s[i])
}

/// The value of a string of decimal digits.
pub open spec fn digits_value(s: Seq<char>) -> nat
    decreases s.len(),
{
    if s.len() == 0 {
        0
    } else {
        digits_value(s.drop_last()) * 10 + (s.last() as nat - '0' as nat) as nat
    }
}

pub open spec fn frame_prefix() -> Seq<char> {
    "frame_"@
}

pub open spec fn frame_suffix() -> Seq<char> {
    ".png"@
}

/// The index between prefix and suffix of a frame artifact's name.
pub open spec fn frame_digits(name: Seq<char>) -> Seq<char> {
    name.subrange(frame_prefix().len() as int, name.len() - frame_suffix().len())
}

/// The index that a file name encodes: `frame_`, one or more decimal digits
/// whose value fits in a `u32`, then `.png`.
pub open spec fn frame_number(name: Seq<char>) -> Option<u32> {
    let p = frame_prefix();
    let q = frame_suffix();
    if name.len() > p.len() + q.len()
        && name.subrange(0, p.len() as int) == p
        && name.subrange(name.len() - q.len(), name.len() as int) == q
        && all_digits(frame_digits(name))
        && digits_value(frame_digits(name)) <= u32::MAX
    {
        Some(digits_value(frame_digits(name)) as u32)
    } else {
        None
    }
}

/// The highest frame index among the names, if any name is a frame.
pub open spec fn highest_frame(names: Seq<String>) -> Option<u32>
    decreases names.len(),
{
    if names.len() == 0 {
        None
    } else {
        let rest = highest_frame(names.drop_last());
        match frame_number(names.last()@) {
            None => rest,
            Some(n) => match rest {
                None => Some(n),
                Some(m) => Some(if n > m { n } else { m }),
            },
        }
    }
}

proof fn lemma_digits_value_grows(s: Seq<char>, k: int)
    requires
        0 <= k <= s.len(),
        all_digits(s),
    ensures
        digits_value(s.subrange(0, k)) <= digits_value(s),
    decreases s.len() - k,
{
    if k < s.len() {
        lemma_digits_value_grows(s, k + 1);
        assert(s.subrange(0, k + 1).drop_last() =~= s.subrange(0, k));
    } else {
        assert(s.subrange(0, k) =~= s);
    }
}

/// The value of the decimal digits of `s` between `from` and `to`, if they
/// are all digits and the value fits in a `u32`.
pub fn parse_digits(s: &str, from: usize, to: usize) -> (r: Option<u32>)
    requires
        from <= to <= s@.len(),
    ensures
        ({
            let d = s@.subrange(from as int, to as int);
            match r {
                Some(v) => all_digits(d) && digits_value(d) == v,
                None => !all_digits(d) || digits_value(d) > u32::MAX,
            }
        }),
{
    let ghost d = s@.subrange(from as int, to as int);
    let mut value: u64 = 0;
    let mut k: usize = from;
    while k < to
        invariant
            from <= k <= to <= s@.len(),
            d == s@.subrange(from as int, to as int),
            all_digits(d.subrange(0, k - from)),
            value == digits_value(d.subrange(0, k - from)),
            value <= u32::MAX,
        decreases to - k,
    {
        let c = s.get_char(k);
        if !('0' <= c && c <= '9') {
            assert(d[k - from] == c);
            return None;
        }
        let ghost before = d.subrange(0, k - from);
        let ghost after = d.subrange(0, k - from + 1);
        assert(after.drop_last() =~= before);
        assert(after.last() == c);
        value = value * 10 + (c as u64 - '0' as u64);
        k = k + 1;
        if value > u32::MAX as u64 {
            proof {
                assert forall|i: int| 0 <= i < after.len() implies is_digit(#[trigger] after[i]) by {
                    if i < before.len() {
                        assert(after[i] == before[i]);
                    }
                }
                if all_digits(d) {
                    lemma_digits_value_grows(d, k - from);
                }
            }
            return None;
        }
        proof {
            assert forall|i: int| 0 <= i < after.len() implies is_digit(#[trigger] after[i]) by {
                if i < before.len() {
                    assert(after[i] == before[i]);
                }
            }
        }
    }
    assert(d.subrange(0, to - from) =~= d);
    Some(value as u32)
}

/// The index that a file name encodes, if it names a frame artifact.
pub fn parse_frame_name(name: &str) -> (r: Option<u32>)
    ensures
        r == frame_number(name@),
{
    proof {
        reveal_strlit("frame_");
        reveal_strlit(".png");
    }
    let n = name.unicode_len();
    if n <= 10 {
        return None;
    }
    if !matches_at(name, 0, "frame_") || !matches_at(name, n - 4, ".png") {
        return None;
    }
    parse_digits(name, 6, n - 4)
}

/// The highest frame index among `names` and the position of the first name
/// that carries it; `None` when no name is a frame artifact.
pub fn latest_frame(names: &Vec<String>) -> (r: Option<(u32, usize)>)
    ensures
        match r {
            Some((n, i)) => {
                &&& highest_frame(names@) == Some(n)
                &&& i < names@.len()
                &&& frame_number(names@[i as int]@) == Some(n)
                &&& forall|j: int| 0 <= j < i ==> frame_number(#[trigger] names@[j]@) != Some(n)
            },
            None => highest_frame(names@) is None,
        },
{
    let mut best: Option<(u32, usize)> = None;
    let mut k: usize = 0;
    assert(names@.subrange(0, 0) =~= Seq::<String>::empty());
    while k < names.len()
        invariant
            k <= names@.len(),
            match best {
                Some((n, i)) => {
                    &&& highest_frame(names@.subrange(0, k as int)) == Some(n)
                    &&& i < k
                    &&& frame_number(names@[i as int]@) == Some(n)
                    &&& forall|j: int| 0 <= j < i ==> frame_number(#[trigger] names@[j]@) != Some(n)
                },
                None => highest_frame(names@.subrange(0, k as int)) is None,
            },
        decreases names.len() - k,
    {
        assert(names@.subrange(0, k + 1).drop_last() =~= names@.subrange(0, k as int));
        assert(names@.subrange(0, k + 1).last() == names@[k as int]);
        let f = parse_frame_name(names[k].as_str());
        match f {
            Some(v) => {
                match best {
                    Some((n, i)) => {
                        if v > n {
                            proof {
                                lemma_highest_is_max(names@.subrange(0, k as int));
                                assert forall|j: int| 0 <= j < k implies frame_number(#[trigger] names@[j]@) != Some(v) by {
                                    assert(names@.subrange(0, k as int)[j] == names@[j]);
                                }
                            }
                            best = Some((v, k));
                        }
                    },
                    None => {
                        proof {
                            lemma_highest_is_max(names@.subrange(0, k as int));
                            assert forall|j: int| 0 <= j < k implies frame_number(#[trigger] names@[j]@) != Some(v) by {
                                assert(names@.subrange(0, k as int)[j] == names@[j]);
                            }
                        }
                        best = Some((v, k));
                    },
                }
            },
            None => {},
        }
        k = k + 1;
    }
    assert(names@.subrange(0, names@.len() as int) =~= names@);
    best
}

/// What the highest frame is: no name holds a higher index, and, when there
/// is one, some name holds it; when there is none, no name is a frame.
pub proof fn lemma_highest_is_max(names: Seq<String>)
    ensures
        match highest_frame(names) {
            Some(m) => {
                &&& forall|j: int| 0 <= j < names.len() ==>
                    (#[trigger] frame_number(names[j]@) matches Some(v) ==> v <= m)
                &&& exists|j: int| 0 <= j < names.len() && #[trigger] frame_number(names[j]@) == Some(m)
            },
            None => forall|j: int| 0 <= j < names.len() ==> (#[trigger] frame_number(names[j]@)) is None,
        },
    decreases names.len(),
{
    if names.len() > 0 {
        let rest = names.drop_last();
        lemma_highest_is_max(rest);
        let last = names.len() - 1;
        assert forall|j: int| 0 <= j < last implies #[trigger] names[j] == rest[j] by {}
        match highest_frame(names) {
            Some(m) => {
                assert forall|j: int| 0 <= j < names.len() implies
                    (#[trigger] frame_number(names[j]@) matches Some(v) ==> v <= m) by {
                    if j < last {
                        assert(names[j] == rest[j]);
                    }
                }
                if frame_number(names[last]@) == Some(m) {
                    assert(frame_number(names[last]@) == Some(m));
                } else {
                    let r = highest_frame(rest)->0;
                    let j0 = choose|j: int| 0 <= j < rest.len() && #[trigger] frame_number(rest[j]@) == Some(r);
                    assert(names[j0] == rest[j0]);
                    assert(frame_number(names[j0]@) == Some(m));
                }
            },
            None => {
                assert forall|j: int| 0 <= j < names.len() implies
                    (#[trigger] frame_number(names[j]@)) is None by {
                    if j < last {
                        assert(names[j] == rest[j]);
                    }
                }
            },
        }
    }
}

/// Frames are never reported out of order: when every name of an earlier
/// listing is still in a later one, as within one session where frames are
/// only added, the later highest index is at least the earlier one.
pub proof fn lemma_latest_frame_monotone(earlier: Seq<String>, later: Seq<String>)
    requires
        forall|i: int| 0 <= i < earlier.len() ==> later.contains(#[trigger] earlier[i]),
    ensures
        highest_frame(earlier) matches Some(n) ==> (highest_frame(later) matches Some(m) && n <= m),
{
    lemma_highest_is_max(earlier);
    lemma_highest_is_max(later);
    if let Some(n) = highest_frame(earlier) {
        let i = choose|j: int| 0 <= j < earlier.len() && #[trigger] frame_number(earlier[j]@) == Some(n);
        assert(later.contains(earlier[i]));
        let k = choose|k: int| 0 <= k < later.len() && later[k] == earlier[i];
        assert(frame_number(later[k]@) == Some(n));
    }
}

} // verus!
