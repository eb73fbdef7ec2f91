//! Subscriptions and MQTT topic-filter matching.
//!
//! A filter is split on `/` into levels; `#` matches every remaining
//! level, `+` matches exactly one level, and any other level matches only
//! itself. The exec matcher is proved equal to the specification
//! `spec_matches` over the views of the filter and the topic.

use vstd::prelude::*;

use crate::message::{QoS, Topic};

verus! {

/// An RGBA colour tag the consumer attaches to a subscription.
#[derive(Clone, Copy, Debug, PartialEq, Eq, Structural)]
pub struct Color {
    pub r: u8,
    pub g: u8,
    pub b: u8,
    pub a: u8,
}

/// One subscription: a topic filter, its delivery quality, and the
/// colour it is shown with.
#[derive(Clone, Debug, PartialEq, Eq)]
pub struct Subcribe {
    pub topic: Topic,
    pub qos: QoS,
    pub color: Color,
}

impl Subcribe {
    /// A field-for-field copy, with the copy proved equal to the
    /// original.
    pub fn duplicate(&self) -> (c: Self)
        ensures
            c == *self,
    {
        Subcribe { topic: self.topic.clone(), qos: self.qos, color: self.color }
    }
}

/// The levels of a topic or filter: the text split on `/`, kept in order,
/// with empty levels preserved.
pub open spec fn split_levels(s: Seq<char>) -> Seq<Seq<char>>
    decreases s.len(),
{
    if s.len() == 0 {
        seq![Seq::<char>::empty()]
    } else {
        let rest = split_levels(s.drop_first());
        if s[0] == '/' {
            seq![Seq::<char>::empty()] + rest
        } else {
            seq![seq![s[0]] + rest[0]] + rest.drop_first()
        }
    }
}

/// Splitting always yields at least one level.
pub proof fn lemma_split_levels_nonempty(s: Seq<char>)
    ensures
        split_levels(s).len() >= 1,
    decreases s.len(),
{
    if s.len() != 0 {
        lemma_split_levels_nonempty(s.drop_first());
    }
}

/// Prepends a partial level onto the first level of an already-split
/// suffix.
pub open spec fn merge_first(c: Seq<char>, ss: Seq<Seq<char>>) -> Seq<Seq<char>> {
    seq![c + ss[0]] + ss.drop_first()
}

/// Level-wise filter matching, in the shape the matcher walks it: `#`
/// accepts everything that remains, a topic level `#` never matches, `+`
/// accepts exactly one level, anything else must be equal.
pub open spec fn levels_match(fs: Seq<Seq<char>>, ts: Seq<Seq<char>>) -> bool
    decreases fs.len(),
{
    if fs.len() == 0 {
        ts.len() == 0
    } else if fs[0] == seq!['#'] {
        true
    } else if ts.len() == 0 {
        false
    } else if ts[0] == seq!['#'] {
        false
    } else if fs[0] == seq!['+'] || fs[0] == ts[0] {
        levels_match(fs.drop_first(), ts.drop_first())
    } else {
        false
    }
}

/// Whether the filter accepts the topic.
pub open spec fn spec_matches(filter: Seq<char>, topic: Seq<char>) -> bool {
    levels_match(split_levels(filter), split_levels(topic))
}

/// Splits a topic or filter on `/`, preserving order and empty levels.
pub fn split_topic(s: &str) -> (segs: Vec<Vec<char>>)
    ensures
        segs.deep_view() == split_levels(s@),
{
    let n = s.unicode_len();
    let mut acc: Vec<Vec<char>> = Vec::new();
    let mut cur: Vec<char> = Vec::new();
    let mut k: usize = 0;
    proof {
        assert(s@.skip(0) =~= s@);
        lemma_split_levels_nonempty(s@);
        assert(merge_first(cur@, split_levels(s@)) =~~= split_levels(s@));
        assert(acc.deep_view() + merge_first(cur@, split_levels(s@)) =~~= split_levels(s@));
    }
    while k < n
        invariant
            k <= n,
            n == s@.len(),
            split_levels(s@) == acc.deep_view() + merge_first(
                cur@,
                split_levels(s@.skip(k as int)),
            ),
        decreases n - k,
    {
        let ghost suffix = s@.skip(k as int);
        let ghost next = s@.skip(k as int + 1);
        proof {
            assert(suffix.len() > 0);
            assert(suffix[0] == s@[k as int]);
            assert(suffix.drop_first() =~= next);
            lemma_split_levels_nonempty(next);
        }
        let c = s.get_char(k);
        if c == '/' {
            proof {
                assert(split_levels(suffix) =~= seq![Seq::<char>::empty()] + split_levels(next));
                assert(merge_first(cur@, split_levels(suffix)) =~~= seq![cur@] + merge_first(
                    Seq::<char>::empty(),
                    split_levels(next),
                ));
            }
            let ghost old_acc = acc.deep_view();
            let ghost old_cur = cur@;
            acc.push(cur);
            cur = Vec::new();
            proof {
                assert(acc.deep_view() =~~= old_acc.push(old_cur));
                assert(old_acc.push(old_cur) + merge_first(cur@, split_levels(next)) =~~= old_acc
                    + (seq![old_cur] + merge_first(Seq::<char>::empty(), split_levels(next))));
            }
        } else {
            proof {
                assert(split_levels(suffix) =~= seq![seq![suffix[0]] + split_levels(next)[0]]
                    + split_levels(next).drop_first());
                assert(merge_first(cur@, split_levels(suffix)) =~~= merge_first(
                    cur@.push(c),
                    split_levels(next),
                ));
            }
            cur.push(c);
        }
        k = k + 1;
    }
    proof {
        assert(s@.skip(n as int) =~= Seq::<char>::empty());
        assert(split_levels(s@.skip(n as int)) =~~= seq![Seq::<char>::empty()]);
        assert(merge_first(cur@, seq![Seq::<char>::empty()]) =~~= seq![cur@]);
    }
    let ghost old_acc = acc.deep_view();
    let ghost last = cur@;
    acc.push(cur);
    proof {
        assert(acc.deep_view() =~~= old_acc.push(last));
        assert(old_acc.push(last) =~~= old_acc + seq![last]);
    }
    acc
}

/// Whether a level is exactly the one-character level `c`.
fn is_level(v: &Vec<char>, c: char) -> (b: bool)
    ensures
        b == (v@ == seq![c]),
{
    let r = v.len() == 1 && v[0] == c;
    proof {
        if r {
            assert(v@ =~= seq![c]);
        }
        if v@ == seq![c] {
            assert(v@.len() == 1);
        }
    }
    r
}

/// Whether two levels are equal character for character.
fn eq_level(a: &Vec<char>, b: &Vec<char>) -> (r: bool)
    ensures
        r == (a@ == b@),
{
    if a.len() != b.len() {
        proof {
            assert(a@ != b@);
        }
        return false;
    }
    let mut j: usize = 0;
    while j < a.len()
        invariant
            j <= a.len(),
            a@.len() == b@.len(),
            forall|i: int| 0 <= i < j ==> a@[i] == b@[i],
        decreases a.len() - j,
    {
        if a[j] != b[j] {
            return false;
        }
        j = j + 1;
    }
    proof {
        assert(a@ =~= b@);
    }
    true
}

impl Subcribe {
    /// Whether this subscription's filter accepts the topic.
    pub fn matches(&self, topic: &str) -> (b: bool)
        ensures
            b == spec_matches(self.topic@, topic@),
    {
        let fsegs = split_topic(self.topic.as_str());
        let tsegs = split_topic(topic);
        let ghost fv = fsegs.deep_view();
        let ghost tv = tsegs.deep_view();
        let mut i: usize = 0;
        proof {
            assert(fv.skip(0) =~~= fv);
            assert(tv.skip(0) =~~= tv);
        }
        loop
            invariant
                i <= fsegs.len(),
                i <= tsegs.len(),
                fv == fsegs.deep_view(),
                tv == tsegs.deep_view(),
                fv == split_levels(self.topic@),
                tv == split_levels(topic@),
                spec_matches(self.topic@, topic@) == levels_match(
                    fv.skip(i as int),
                    tv.skip(i as int),
                ),
            decreases fsegs.len() - i,
        {
            proof {
                if i < fv.len() {
                    assert(fv.skip(i as int)[0] == fv[i as int]);
                    assert(fv.skip(i as int).drop_first() =~= fv.skip(i as int + 1));
                }
                if i < tv.len() {
                    assert(tv.skip(i as int)[0] == tv[i as int]);
                    assert(tv.skip(i as int).drop_first() =~= tv.skip(i as int + 1));
                }
            }
            if i >= fsegs.len() {
                proof {
                    assert(fv.skip(i as int) =~~= Seq::<Seq<char>>::empty());
                }
                return i >= tsegs.len();
            }
            let f = &fsegs[i];
            proof {
                assert(fv.skip(i as int)[0] == f@);
            }
            if is_level(f, '#') {
                proof {
                    assert(levels_match(fv.skip(i as int), tv.skip(i as int)));
                }
                return true;
            }
            if i >= tsegs.len() {
                proof {
                    assert(tv.skip(i as int) =~~= Seq::<Seq<char>>::empty());
                    assert(!levels_match(fv.skip(i as int), tv.skip(i as int)));
                }
                return false;
            }
            let t = &tsegs[i];
            proof {
                assert(tv.skip(i as int)[0] == t@);
            }
            if is_level(t, '#') {
                proof {
                    assert(!levels_match(fv.skip(i as int), tv.skip(i as int)));
                }
                return false;
            }
            if !is_level(f, '+') && !eq_level(f, t) {
                proof {
                    assert(!levels_match(fv.skip(i as int), tv.skip(i as int)));
                }
                return false;
            }
            proof {
                assert(levels_match(fv.skip(i as int), tv.skip(i as int)) == levels_match(
                    fv.skip(i as int + 1),
                    tv.skip(i as int + 1),
                ));
            }
            i = i + 1;
        }
    }
}

} // verus!
