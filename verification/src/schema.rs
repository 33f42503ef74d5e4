//! Generalising the triggers of a group of reflexes into a schema's trigger:
//! the words that occur in at least half of the triggers, or, when no word
//! does, the trigger of the most used reflex.  (Grouping reflexes and the
//! schema's confidence are floating point and stay outside the library.)

use vstd::prelude::*;
use vstd::string::StringExecFns;
use crate::text::str_eq;

verus! {

/// The whitespace-separated words of a text, in order, as
/// `str::split_whitespace` yields them.
pub uninterp spec fn whitespace_words(text: Seq<char>) -> Seq<Seq<char>>;

/// `str::split_whitespace`, each word copied into a `String`.
#[verifier::external_body]
fn split_words(text: &str) -> (ws: Vec<String>)
    ensures
        ws@.len() == whitespace_words(text@).len(),
        forall|i: int| 0 <= i < ws@.len() ==> (#[trigger] ws@[i])@ == whitespace_words(text@)[i],
{
    text.split_whitespace().map(|w| w.to_string()).collect()
}

/// The views of some strings.
pub open spec fn views(ws: Seq<String>) -> Seq<Seq<char>> {
    ws.map_values(|s: String| s@)
}

/// All the words of all the triggers, trigger after trigger.
pub open spec fn all_words(tw: Seq<Seq<Seq<char>>>) -> Seq<Seq<char>>
    decreases tw.len(),
{
    if tw.len() == 0 {
        Seq::empty()
    } else {
        all_words(tw.drop_last()) + tw.last()
    }
}

/// In how many triggers the word occurs.
pub open spec fn support(tw: Seq<Seq<Seq<char>>>, w: Seq<char>) -> nat
    decreases tw.len(),
{
    if tw.len() == 0 {
        0
    } else {
        support(tw.drop_last(), w) + if tw.last().contains(w) {
            1nat
        } else {
            0nat
        }
    }
}

/// A word of the triggers that occurs in at least half of them.
pub open spec fn is_common(tw: Seq<Seq<Seq<char>>>, w: Seq<char>) -> bool {
    all_words(tw).contains(w) && 2 * support(tw, w) >= tw.len()
}

/// Words joined by single spaces.
pub open spec fn join_words(ws: Seq<Seq<char>>) -> Seq<char>
    decreases ws.len(),
{
    if ws.len() == 0 {
        Seq::empty()
    } else if ws.len() == 1 {
        ws[0]
    } else {
        join_words(ws.drop_last()) + seq![' '] + ws.last()
    }
}

/// `k` is the last of the most used reflexes.
pub open spec fn is_last_most_used(usage: Seq<u32>, k: int) -> bool {
    &&& 0 <= k < usage.len()
    &&& forall|j: int| 0 <= j < usage.len() ==> #[trigger] usage[j] <= usage[k]
    &&& forall|j: int| k < j < usage.len() ==> #[trigger] usage[j] < usage[k]
}

proof fn lemma_views_push(s: Seq<String>, x: String)
    ensures
        views(s.push(x)) == views(s).push(x@),
{
    assert(views(s.push(x)) =~= views(s).push(x@));
}

proof fn lemma_take_push<A>(s: Seq<A>, k: int)
    requires
        0 <= k < s.len(),
    ensures
        s.take(k + 1) == s.take(k).push(s[k]),
{
    assert(s.take(k + 1) =~= s.take(k).push(s[k]));
}

/// Whether `ws` holds a word equal to `w`.
fn holds_word(ws: &Vec<String>, w: &str) -> (b: bool)
    ensures
        b == views(ws@).contains(w@),
{
    let mut i: usize = 0;
    while i < ws.len()
        invariant
            i <= ws@.len(),
            forall|j: int| 0 <= j < i ==> (#[trigger] ws@[j])@ != w@,
        decreases ws@.len() - i,
    {
        if str_eq(ws[i].as_str(), w) {
            assert(views(ws@)[i as int] == w@);
            return true;
        }
        i += 1;
    }
    proof {
        if views(ws@).contains(w@) {
            let j = choose|j: int| 0 <= j < views(ws@).len() && views(ws@)[j] == w@;
            assert(ws@[j]@ == w@);
        }
    }
    false
}

/// Generalise the triggers of a group of reflexes (`usage[i]` is how often
/// reflex `i` was used): the words occurring in at least half of the
/// triggers, each once, joined by spaces; or, when there are none, the
/// trigger of the last of the most used reflexes; or the empty string for
/// an empty group.  Which order the common words come in is not part of the
/// rule; they come in the order of their first occurrence.
pub fn generalize_triggers(triggers: &Vec<String>, usage: &Vec<u32>) -> (r: String)
    requires
        usage@.len() == triggers@.len(),
    ensures
        ({
            let tw = triggers@.map_values(|t: String| whitespace_words(t@));
            if exists|w: Seq<char>| #[trigger] is_common(tw, w) {
                exists|common: Seq<Seq<char>>|
                    {
                        &&& common.no_duplicates()
                        &&& forall|w: Seq<char>| #[trigger] common.contains(w) <==> is_common(tw, w)
                        &&& r@ == join_words(common)
                    }
            } else if triggers@.len() == 0 {
                r@ == Seq::<char>::empty()
            } else {
                exists|k: int| is_last_most_used(usage@, k) && r@ == (#[trigger] triggers@[k])@
            }
        }),
{
    let ghost tw = triggers@.map_values(|t: String| whitespace_words(t@));
    // The words of each trigger, and all of them in order.
    let mut per_trigger: Vec<Vec<String>> = Vec::new();
    let mut flat: Vec<String> = Vec::new();
    let mut i: usize = 0;
    while i < triggers.len()
        invariant
            tw == triggers@.map_values(|t: String| whitespace_words(t@)),
            i <= triggers@.len(),
            per_trigger@.len() == i,
            forall|j: int| 0 <= j < i ==> views((#[trigger] per_trigger@[j])@) == tw[j],
            views(flat@) == all_words(tw.take(i as int)),
        decreases triggers@.len() - i,
    {
        let ws = split_words(triggers[i].as_str());
        assert(views(ws@) =~= tw[i as int]);
        let mut k: usize = 0;
        let ghost before = views(flat@);
        while k < ws.len()
            invariant
                k <= ws@.len(),
                views(flat@) == before + views(ws@).take(k as int),
            decreases ws@.len() - k,
        {
            let ghost f0 = flat@;
            let x = ws[k].clone();
            flat.push(x);
            proof {
                lemma_views_push(f0, x);
                lemma_take_push(views(ws@), k as int);
                assert(views(ws@)[k as int] == x@);
                assert(views(flat@) =~= before + views(ws@).take(k + 1));
            }
            k += 1;
        }
        assert(views(ws@).take(ws@.len() as int) =~= views(ws@));
        assert(tw.take(i + 1).drop_last() =~= tw.take(i as int));
        per_trigger.push(ws);
        i += 1;
    }
    assert(tw.take(tw.len() as int) =~= tw);
    let ghost words = views(flat@);
    // The distinct words, in order of first occurrence.
    let mut distinct: Vec<String> = Vec::new();
    let mut p: usize = 0;
    while p < flat.len()
        invariant
            words == views(flat@),
            p <= flat@.len(),
            views(distinct@).no_duplicates(),
            forall|w: Seq<char>| #[trigger] views(distinct@).contains(w) <==> words.take(p as int).contains(w),
        decreases flat@.len() - p,
    {
        let ghost old_d = views(distinct@);
        let ghost wp = words[p as int];
        let ghost mut pushed = false;
        let seen = holds_word(&distinct, flat[p].as_str());
        if !seen {
            let ghost d0 = distinct@;
            let x = flat[p].clone();
            distinct.push(x);
            proof {
                lemma_views_push(d0, x);
                pushed = true;
            }
        }
        proof {
            broadcast use vstd::seq_lib::group_seq_properties;
            assert(flat@[p as int]@ == wp);
            lemma_take_push(words, p as int);
            let nd = views(distinct@);
            assert(pushed ==> nd == old_d.push(wp));
            assert(!pushed ==> nd == old_d && old_d.contains(wp));
            assert forall|w: Seq<char>| #[trigger] nd.contains(w) <==> words.take(p + 1).contains(w) by {
                assert(old_d.contains(w) <==> words.take(p as int).contains(w));
                assert(words.take(p + 1).contains(w) <==> (words.take(p as int).contains(w) || w == wp));
            }
            if pushed {
                assert(!old_d.contains(wp));
                assert(nd.no_duplicates()) by {
                    assert forall|a: int, b: int| 0 <= a < nd.len() && 0 <= b < nd.len() && a != b implies nd[a] != nd[b] by {
                        if a == nd.len() - 1 {
                            assert(old_d.contains(nd[b]) || b == a);
                        } else if b == nd.len() - 1 {
                            assert(old_d.contains(nd[a]));
                        }
                    }
                }
            }
        }
        p += 1;
    }
    assert(words.take(words.len() as int) =~= words);
    // The common ones among them: a word is common when it occurs in at
    // least `threshold` triggers, half their number rounded up.
    let threshold = triggers.len() - triggers.len() / 2;
    let mut common: Vec<String> = Vec::new();
    let mut q: usize = 0;
    while q < distinct.len()
        invariant
            tw == triggers@.map_values(|t: String| whitespace_words(t@)),
            per_trigger@.len() == tw.len(),
            forall|j: int| 0 <= j < tw.len() ==> views((#[trigger] per_trigger@[j])@) == tw[j],
            words == all_words(tw),
            threshold == tw.len() - tw.len() / 2,
            q <= distinct@.len(),
            views(distinct@).no_duplicates(),
            forall|w: Seq<char>| #[trigger] views(distinct@).contains(w) <==> words.contains(w),
            views(common@).no_duplicates(),
            forall|w: Seq<char>|
                #[trigger] views(common@).contains(w) <==> (views(distinct@).take(q as int).contains(w)
                    && is_common(tw, w)),
        decreases distinct@.len() - q,
    {
        let w = distinct[q].as_str();
        let mut count: usize = 0;
        let mut j: usize = 0;
        while j < per_trigger.len()
            invariant
                per_trigger@.len() == tw.len(),
                forall|x: int| 0 <= x < tw.len() ==> views((#[trigger] per_trigger@[x])@) == tw[x],
                j <= tw.len(),
                count <= j,
                count == support(tw.take(j as int), w@),
            decreases tw.len() - j,
        {
            assert(tw.take(j + 1).drop_last() =~= tw.take(j as int));
            if holds_word(&per_trigger[j], w) {
                count += 1;
            }
            j += 1;
        }
        assert(tw.take(tw.len() as int) =~= tw);
        let ghost old_c = views(common@);
        let ghost dq = views(distinct@);
        let ghost mut pushed = false;
        proof {
            assert(dq[q as int] == w@);
        }
        if count >= threshold {
            let ghost c0 = common@;
            let x = distinct[q].clone();
            common.push(x);
            proof {
                lemma_views_push(c0, x);
                pushed = true;
            }
        }
        proof {
            broadcast use vstd::seq_lib::group_seq_properties;
            lemma_take_push(dq, q as int);
            let nc = views(common@);
            assert(2 * count >= tw.len() <==> count >= threshold);
            assert(is_common(tw, w@) <==> (words.contains(w@) && count >= threshold));
            assert(dq.contains(w@));
            assert(words.contains(w@));
            assert(pushed ==> nc == old_c.push(w@));
            assert(!pushed ==> nc == old_c && !is_common(tw, w@));
            assert forall|x: Seq<char>| #[trigger] nc.contains(x) <==> (dq.take(q + 1).contains(x) && is_common(tw, x)) by {
                assert(old_c.contains(x) <==> (dq.take(q as int).contains(x) && is_common(tw, x)));
                assert(dq.take(q + 1).contains(x) <==> (dq.take(q as int).contains(x) || x == w@));
            }
            if pushed {
                assert(!dq.take(q as int).contains(w@)) by {
                    if dq.take(q as int).contains(w@) {
                        let dt = dq.take(q as int);
                        let a = choose|a: int| 0 <= a < dt.len() && dt[a] == w@;
                        assert(dq[a] == dq[q as int]);
                    }
                }
                assert(!old_c.contains(w@));
                assert(nc.no_duplicates()) by {
                    assert forall|a: int, b: int| 0 <= a < nc.len() && 0 <= b < nc.len() && a != b implies nc[a] != nc[b] by {
                        if a == nc.len() - 1 {
                            assert(old_c.contains(nc[b]));
                        } else if b == nc.len() - 1 {
                            assert(old_c.contains(nc[a]));
                        }
                    }
                }
            }
        }
        q += 1;
    }
    proof {
        assert(views(distinct@).take(distinct@.len() as int) =~= views(distinct@));
    }
    if common.len() > 0 {
        let joined = join_all(&common);
        proof {
            let c = views(common@);
            assert(c.contains(c[0]));
            assert(is_common(tw, c[0]));
            assert(c.no_duplicates());
            assert(forall|w: Seq<char>| #[trigger] c.contains(w) <==> is_common(tw, w));
            assert(joined@ == join_words(c));
        }
        return joined;
    }
    proof {
        assert forall|w: Seq<char>| !#[trigger] is_common(tw, w) by {
            if is_common(tw, w) {
                assert(views(common@).contains(w));
            }
        }
    }
    if triggers.len() == 0 {
        return String::new();
    }
    let mut best: usize = 0;
    let mut b: usize = 1;
    while b < usage.len()
        invariant
            1 <= b <= usage@.len(),
            best < b,
            forall|j: int| 0 <= j < b ==> #[trigger] usage@[j] <= usage@[best as int],
            forall|j: int| best < j < b ==> #[trigger] usage@[j] < usage@[best as int],
        decreases usage@.len() - b,
    {
        if usage[b] >= usage[best] {
            best = b;
        }
        b += 1;
    }
    let r = triggers[best].clone();
    assert(is_last_most_used(usage@, best as int));
    r
}

/// The words joined by single spaces.
fn join_all(ws: &Vec<String>) -> (r: String)
    requires
        ws@.len() > 0,
    ensures
        r@ == join_words(views(ws@)),
{
    let mut r = ws[0].clone();
    let mut i: usize = 1;
    assert(views(ws@).take(1) =~= seq![views(ws@)[0]]);
    while i < ws.len()
        invariant
            1 <= i <= ws@.len(),
            r@ == join_words(views(ws@).take(i as int)),
        decreases ws@.len() - i,
    {
        proof {
            reveal_strlit(" ");
        }
        let ghost before = views(ws@).take(i as int);
        r = r.concat(" ");
        r = r.concat(ws[i].as_str());
        proof {
            let after = views(ws@).take(i + 1);
            assert(after.drop_last() =~= before);
            assert(after.last() == ws@[i as int]@);
        }
        i += 1;
    }
    assert(views(ws@).take(ws@.len() as int) =~= views(ws@));
    r
}

} // verus!
