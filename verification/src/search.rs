//! The incremental prefix-autocomplete engine.
//!
//! Given a starting mask and a next-char fetcher, the engine extends the
//! mask one step at a time, accumulating `complete` matches (candidates
//! equal to the mask itself) and stopping either when the candidates run
//! out or when they form a genuine fork, which is returned as `incomplete`.

use vstd::prelude::*;

use crate::error::ApiError;
use crate::text::{lower_of, lowercase};

verus! {

/// The candidates of one fetch that equal the mask itself: the mask is
/// already a complete stored value.
pub open spec fn exact_of(m: Seq<char>, ps: Seq<String>) -> Seq<String> {
    ps.filter(|p: String| p@ == m)
}

/// The candidates of one fetch that differ from the mask: the extensions.
pub open spec fn tail_of(m: Seq<char>, ps: Seq<String>) -> Seq<String> {
    ps.filter(|p: String| p@ != m)
}

/// True when a fetch step continues the walk: exactly one extension, or
/// exactly two extensions whose case-folded forms are identical.
pub open spec fn step_advances(m: Seq<char>, ps: Seq<String>) -> bool {
    let t = tail_of(m, ps);
    t.len() == 1 || (t.len() == 2 && lower_of(t[0]@) == lower_of(t[1]@))
}

/// The mask after a continuing step: the first extension.
pub open spec fn step_next(m: Seq<char>, ps: Seq<String>) -> Seq<char> {
    tail_of(m, ps)[0]@
}

/// The incomplete branches of a stopping step: the extensions when two or
/// more remain (a genuine fork), nothing when the candidates ran out.
pub open spec fn step_forked(m: Seq<char>, ps: Seq<String>) -> Seq<String> {
    let t = tail_of(m, ps);
    if t.len() >= 2 {
        t
    } else {
        Seq::<String>::empty()
    }
}

/// The step rule over a walk's record — at each step, the mask that was
/// fetched and the candidates that came back — with the candidates
/// themselves unconstrained: the first mask is the seed, every later mask
/// is the extension chosen from the step before it, and every step but
/// the last continues the walk.
pub open spec fn walk_links(m0: Seq<char>, tr: Seq<(String, Vec<String>)>) -> bool {
    &&& forall|i: int| #![trigger tr[i]] 0 < i < tr.len() ==> tr[i].0@ == step_next(tr[i - 1].0@, tr[i - 1].1@)
    &&& forall|i: int| #![trigger tr[i]] 0 <= i < tr.len() - 1 ==> step_advances(tr[i].0@, tr[i].1@)
    &&& tr.len() > 0 ==> tr[0].0@ == m0
}

/// Every recorded fetch of the walk is a possible outcome of the fetcher.
pub open spec fn chain_ensured<F: Fn(&String) -> Result<Vec<String>, ApiError>>(
    f: F,
    tr: Seq<(String, Vec<String>)>,
) -> bool {
    forall|i: int|
        #![trigger tr[i]]
        0 <= i < tr.len() ==> call_ensures(f, (&tr[i].0,), Result::<Vec<String>, ApiError>::Ok(tr[i].1))
}

/// A walk record tied to its fetcher: the step rule holds and every
/// recorded fetch is a possible outcome of the fetcher.
pub open spec fn chain_links<F: Fn(&String) -> Result<Vec<String>, ApiError>>(
    f: F,
    m0: Seq<char>,
    tr: Seq<(String, Vec<String>)>,
) -> bool {
    &&& walk_links(m0, tr)
    &&& chain_ensured(f, tr)
}

/// A finished walk by the step rule alone: a non-empty record whose last
/// step stops.
pub open spec fn finished_walk(m0: Seq<char>, tr: Seq<(String, Vec<String>)>) -> bool {
    &&& tr.len() >= 1
    &&& walk_links(m0, tr)
    &&& !step_advances(tr.last().0@, tr.last().1@)
}

/// A finished walk tied to its fetcher.
pub open spec fn fetch_chain<F: Fn(&String) -> Result<Vec<String>, ApiError>>(
    f: F,
    m0: Seq<char>,
    tr: Seq<(String, Vec<String>)>,
) -> bool {
    &&& finished_walk(m0, tr)
    &&& chain_ensured(f, tr)
}

/// An unfinished walk tied to its fetcher: every recorded step, the last
/// included, continues the walk.
pub open spec fn advancing_chain<F: Fn(&String) -> Result<Vec<String>, ApiError>>(
    f: F,
    m0: Seq<char>,
    tr: Seq<(String, Vec<String>)>,
) -> bool {
    &&& chain_links(f, m0, tr)
    &&& forall|i: int| #![trigger tr[i]] 0 <= i < tr.len() ==> step_advances(tr[i].0@, tr[i].1@)
}

/// The mask an unfinished walk stands at: the seed, or the extension
/// chosen by the last recorded step.
pub open spec fn chain_cursor(m0: Seq<char>, tr: Seq<(String, Vec<String>)>) -> Seq<char> {
    if tr.len() == 0 {
        m0
    } else {
        step_next(tr.last().0@, tr.last().1@)
    }
}

/// The complete matches a walk accumulates: each step's exact candidates,
/// in walk order.
pub open spec fn completes_of(tr: Seq<(String, Vec<String>)>) -> Seq<String>
    decreases tr.len(),
{
    if tr.len() == 0 {
        Seq::<String>::empty()
    } else {
        completes_of(tr.drop_last()) + exact_of(tr.last().0@, tr.last().1@)
    }
}

/// The incomplete branches a walk returns: the final step's fork, if any.
pub open spec fn incompletes_of(tr: Seq<(String, Vec<String>)>) -> Seq<String>
    recommends
        tr.len() >= 1,
{
    step_forked(tr.last().0@, tr.last().1@)
}

pub(crate) proof fn lemma_filter_push<A>(s: Seq<A>, x: A, p: spec_fn(A) -> bool)
    ensures
        s.push(x).filter(p) == if p(x) {
            s.filter(p).push(x)
        } else {
            s.filter(p)
        },
{
    reveal(Seq::filter);
    assert(s.push(x).drop_last() =~= s);
}

/// Splits the candidates into those equal to the mask and the rest,
/// preserving order.
fn partition_candidates(mask: &String, patterns: &Vec<String>) -> (r: (Vec<String>, Vec<String>))
    ensures
        r.0@ == exact_of(mask@, patterns@),
        r.1@ == tail_of(mask@, patterns@),
{
    let mut exact: Vec<String> = Vec::new();
    let mut tail: Vec<String> = Vec::new();
    let mut k: usize = 0;
    while k < patterns.len()
        invariant
            k <= patterns@.len(),
            exact@ == exact_of(mask@, patterns@.take(k as int)),
            tail@ == tail_of(mask@, patterns@.take(k as int)),
        decreases patterns@.len() - k,
    {
        let p = patterns[k].clone();
        proof {
            assert(patterns@.take(k + 1) =~= patterns@.take(k as int).push(patterns@[k as int]));
            lemma_filter_push(patterns@.take(k as int), patterns@[k as int], |q: String| q@ == mask@);
            lemma_filter_push(patterns@.take(k as int), patterns@[k as int], |q: String| q@ != mask@);
        }
        if mask.eq(&p) {
            exact.push(p);
        } else {
            tail.push(p);
        }
        k = k + 1;
    }
    proof {
        assert(patterns@.take(patterns@.len() as int) =~= patterns@);
    }
    (exact, tail)
}

/// Walks the space of stored strings from `mask`, extending it one
/// character at a time with `fetcher`, until the extensions run out or
/// fork.
///
/// On success the result is exactly the outcome of a finished walk: the
/// first component collects, in walk order, every candidate that equalled
/// the mask it was fetched for; the second holds the final fork, or
/// nothing when the walk ended by running out of extensions. An error is
/// either a fetcher error propagated verbatim from the mask an unfinished
/// walk had reached, or the engine's own failure, possible only once an
/// all-advancing walk has exhausted an iteration count no stored data can
/// warrant.
pub fn search_by_mask<F: Fn(&String) -> Result<Vec<String>, ApiError>>(mask: &str, fetcher: F) -> (r:
    Result<(Vec<String>, Vec<String>), ApiError>)
    requires
        forall|m: &String| #[trigger] call_requires(fetcher, (m,)),
    ensures
        (r matches Ok(out) ==> exists|tr: Seq<(String, Vec<String>)>|
            {
                &&& #[trigger] fetch_chain(fetcher, mask@, tr)
                &&& out.0@ == completes_of(tr)
                &&& out.1@ == incompletes_of(tr)
            }),
        (r matches Err(e) ==> exists|tr: Seq<(String, Vec<String>)>|
            {
                &&& #[trigger] advancing_chain(fetcher, mask@, tr)
                &&& ((exists|m: String|
                    m@ == chain_cursor(mask@, tr) && call_ensures(
                        fetcher,
                        (&m,),
                        Result::<Vec<String>, ApiError>::Err(e),
                    )) || (tr.len() == u64::MAX && e matches ApiError::Fetcher(_)))
            }),
{
    let mut cur: String = mask.to_owned();
    let mut complete: Vec<String> = Vec::new();
    let mut incomplete: Vec<String> = Vec::new();
    let ghost mut trace: Seq<(String, Vec<String>)> = Seq::empty();
    let mut fuel: u64 = u64::MAX;
    while fuel > 0
        invariant
            forall|m: &String| #[trigger] call_requires(fetcher, (m,)),
            chain_links(fetcher, mask@, trace),
            forall|i: int| #![trigger trace[i]] 0 <= i < trace.len() ==> step_advances(trace[i].0@, trace[i].1@),
            cur@ == if trace.len() == 0 {
                mask@
            } else {
                step_next(trace.last().0@, trace.last().1@)
            },
            complete@ == completes_of(trace),
            incomplete@.len() == 0,
            trace.len() == u64::MAX - fuel,
        decreases fuel,
    {
        fuel = fuel - 1;
        let fetched = fetcher(&cur);
        let patterns = match fetched {
            Ok(p) => p,
            Err(e) => {
                proof {
                    assert(advancing_chain(fetcher, mask@, trace));
                    assert(cur@ == chain_cursor(mask@, trace) && call_ensures(
                        fetcher,
                        (&cur,),
                        Result::<Vec<String>, ApiError>::Err(e),
                    ));
                }
                return Err(e);
            },
        };
        let ghost prev_trace = trace;
        let ghost cur_mask = cur;
        proof {
            trace = trace.push((cur_mask, patterns));
            assert(trace.drop_last() =~= prev_trace);
            assert forall|i: int| #![trigger trace[i]] 0 <= i < trace.len() implies call_ensures(
                fetcher,
                (&trace[i].0,),
                Result::<Vec<String>, ApiError>::Ok(trace[i].1),
            ) && (0 < i ==> trace[i].0@ == step_next(trace[i - 1].0@, trace[i - 1].1@)) && (i
                < trace.len() - 1 ==> step_advances(trace[i].0@, trace[i].1@)) by {
                if i < prev_trace.len() {
                    assert(trace[i] == prev_trace[i]);
                    if 0 < i {
                        assert(trace[i - 1] == prev_trace[i - 1]);
                    }
                } else {
                    assert(trace[i] == (cur_mask, patterns));
                    if 0 < i {
                        assert(trace[i - 1] == prev_trace[i - 1]);
                        assert(prev_trace[i - 1] == prev_trace.last());
                    }
                }
            }
            if prev_trace.len() > 0 {
                assert(trace[0] == prev_trace[0]);
            } else {
                assert(trace[0] == (cur_mask, patterns));
            }
            assert(chain_links(fetcher, mask@, trace));
            assert(trace.last() == (cur_mask, patterns));
        }
        let (mut exact, mut tail) = partition_candidates(&cur, &patterns);
        complete.append(&mut exact);
        proof {
            assert(complete@ =~= completes_of(trace));
        }
        if tail.len() == 0 {
            proof {
                assert(!step_advances(cur_mask@, patterns@));
                assert(incomplete@ =~= incompletes_of(trace));
                assert(fetch_chain(fetcher, mask@, trace));
            }
            return Ok((complete, incomplete));
        } else if tail.len() == 1 {
            match tail.pop() {
                Some(next) => {
                    cur = next;
                },
                None => {
                    proof {
                        assert(false);
                    }
                },
            }
        } else if tail.len() == 2 {
            let l0 = lowercase(tail[0].as_str());
            let l1 = lowercase(tail[1].as_str());
            if l0.eq(&l1) {
                cur = tail.remove(0);
            } else {
                proof {
                    assert(!step_advances(cur_mask@, patterns@));
                }
                incomplete.append(&mut tail);
                proof {
                    assert(incomplete@ =~= incompletes_of(trace));
                    assert(fetch_chain(fetcher, mask@, trace));
                }
                return Ok((complete, incomplete));
            }
        } else {
            proof {
                assert(!step_advances(cur_mask@, patterns@));
            }
            incomplete.append(&mut tail);
            proof {
                assert(incomplete@ =~= incompletes_of(trace));
                assert(fetch_chain(fetcher, mask@, trace));
            }
            return Ok((complete, incomplete));
        }
        proof {
            assert(step_advances(cur_mask@, patterns@));
            assert(cur@ == step_next(trace.last().0@, trace.last().1@));
            assert forall|i: int| #![trigger trace[i]] 0 <= i < trace.len() implies step_advances(
                trace[i].0@,
                trace[i].1@,
            ) by {
                if i < prev_trace.len() {
                    assert(trace[i] == prev_trace[i]);
                } else {
                    assert(trace[i] == (cur_mask, patterns));
                }
            }
        }
    }
    proof {
        assert(trace.len() == u64::MAX);
        assert(advancing_chain(fetcher, mask@, trace));
    }
    Err(ApiError::Fetcher(String::from_str("the mask kept extending past any stored string length")))
}


proof fn lemma_filter_sub<A>(s: Seq<A>, p: spec_fn(A) -> bool, k: int)
    requires
        0 <= k < s.filter(p).len(),
    ensures
        s.contains(s.filter(p)[k]),
    decreases s.len(),
{
    reveal(Seq::filter);
    if s.len() > 0 {
        let pre = s.drop_last();
        if p(s.last()) {
            if k < pre.filter(p).len() {
                lemma_filter_sub(pre, p, k);
                let x = pre.filter(p)[k];
                let i = choose|i: int| 0 <= i < pre.len() && pre[i] == x;
                assert(s[i] == x);
            } else {
                assert(s.filter(p)[k] == s.last());
                assert(s[s.len() - 1] == s.last());
            }
        } else {
            lemma_filter_sub(pre, p, k);
            let x = pre.filter(p)[k];
            let i = choose|i: int| 0 <= i < pre.len() && pre[i] == x;
            assert(s[i] == x);
        }
    }
}

broadcast group group_filter_facts {
    Seq::lemma_filter_len,
    Seq::lemma_filter_pred,
}

/// Law: every complete result of a finished walk was returned by the
/// fetcher among the candidates for a mask equal to the result itself, so
/// it names a member of the backing string set verbatim.
pub proof fn lemma_complete_verbatim<F: Fn(&String) -> Result<Vec<String>, ApiError>>(
    f: F,
    tr: Seq<(String, Vec<String>)>,
)
    requires
        forall|i: int|
            #![trigger tr[i]]
            0 <= i < tr.len() ==> call_ensures(f, (&tr[i].0,), Result::<Vec<String>, ApiError>::Ok(tr[i].1)),
    ensures
        forall|j: int|
            0 <= j < completes_of(tr).len() ==> exists|m: String, v: Vec<String>|
                {
                    &&& call_ensures(f, (&m,), Result::<Vec<String>, ApiError>::Ok(v))
                    &&& v@.contains(#[trigger] completes_of(tr)[j])
                    &&& completes_of(tr)[j]@ == m@
                },
    decreases tr.len(),
{
    broadcast use group_filter_facts;

    if tr.len() > 0 {
        let pre = tr.drop_last();
        assert forall|i: int| #![trigger pre[i]] 0 <= i < pre.len() implies call_ensures(
            f,
            (&pre[i].0,),
            Result::<Vec<String>, ApiError>::Ok(pre[i].1),
        ) by {
            assert(pre[i] == tr[i]);
        }
        lemma_complete_verbatim(f, pre);
        let last = tr.last();
        let ex = exact_of(last.0@, last.1@);
        assert(tr[tr.len() - 1] == last);
        assert forall|j: int| 0 <= j < completes_of(tr).len() implies exists|m: String, v: Vec<String>|
            {
                &&& call_ensures(f, (&m,), Result::<Vec<String>, ApiError>::Ok(v))
                &&& v@.contains(#[trigger] completes_of(tr)[j])
                &&& completes_of(tr)[j]@ == m@
            } by {
            if j < completes_of(pre).len() {
                assert(completes_of(tr)[j] == completes_of(pre)[j]);
            } else {
                let k = j - completes_of(pre).len();
                assert(completes_of(tr)[j] == ex[k]);
                lemma_filter_sub(last.1@, |q: String| q@ == last.0@, k);
                assert(call_ensures(f, (&last.0,), Result::<Vec<String>, ApiError>::Ok(last.1)));
                assert(last.1@.contains(ex[k]) && ex[k]@ == last.0@);
            }
        }
    }
}

/// Law: when every fetched candidate is either the mask itself or a
/// one-character extension of it, the incomplete branches of a finished
/// walk are exactly one character longer than the final mask.
pub proof fn lemma_incomplete_one_longer<F: Fn(&String) -> Result<Vec<String>, ApiError>>(
    f: F,
    m0: Seq<char>,
    tr: Seq<(String, Vec<String>)>,
)
    requires
        fetch_chain(f, m0, tr),
        forall|m: String, v: Vec<String>, j: int|
            #![trigger call_ensures(f, (&m,), Result::<Vec<String>, ApiError>::Ok(v)), v@[j]]
            call_ensures(f, (&m,), Result::<Vec<String>, ApiError>::Ok(v)) && 0 <= j < v@.len()
                ==> (v@[j]@ == m@ || v@[j]@.len() == m@.len() + 1),
    ensures
        forall|j: int|
            0 <= j < incompletes_of(tr).len() ==> (#[trigger] incompletes_of(tr)[j])@.len()
                == tr.last().0@.len() + 1,
{
    broadcast use group_filter_facts;

    let last = tr.last();
    assert(tr[tr.len() - 1] == last);
    let t = tail_of(last.0@, last.1@);
    assert forall|j: int| 0 <= j < incompletes_of(tr).len() implies (#[trigger] incompletes_of(tr)[j])@.len()
        == tr.last().0@.len() + 1 by {
        lemma_filter_sub(last.1@, |q: String| q@ != last.0@, j);
        let x = t[j];
        let k = choose|k: int| 0 <= k < last.1@.len() && last.1@[k] == x;
        assert(call_ensures(f, (&last.0,), Result::<Vec<String>, ApiError>::Ok(last.1)));
        assert(last.1@[k]@ == last.0@ || last.1@[k]@.len() == last.0@.len() + 1);
        assert(x@ != last.0@);
    }
}

proof fn lemma_mask_len_at<F: Fn(&String) -> Result<Vec<String>, ApiError>>(
    f: F,
    m0: Seq<char>,
    tr: Seq<(String, Vec<String>)>,
    lmax: nat,
    i: int,
)
    requires
        chain_links(f, m0, tr),
        0 <= i < tr.len(),
        forall|m: String, v: Vec<String>, j: int|
            #![trigger call_ensures(f, (&m,), Result::<Vec<String>, ApiError>::Ok(v)), v@[j]]
            call_ensures(f, (&m,), Result::<Vec<String>, ApiError>::Ok(v)) && 0 <= j < v@.len()
                ==> (v@[j]@ == m@ || (v@[j]@.len() == m@.len() + 1 && v@[j]@.len() <= lmax)),
    ensures
        tr[i].0@.len() == m0.len() + i,
        i > 0 ==> tr[i].0@.len() <= lmax,
    decreases i,
{
    broadcast use group_filter_facts;

    if i > 0 {
        lemma_mask_len_at(f, m0, tr, lmax, i - 1);
        let prev = tr[i - 1];
        let t = tail_of(prev.0@, prev.1@);
        assert(step_advances(prev.0@, prev.1@));
        assert(tr[i].0@ == step_next(prev.0@, prev.1@));
        lemma_filter_sub(prev.1@, |q: String| q@ != prev.0@, 0);
        let x = t[0];
        let k = choose|k: int| 0 <= k < prev.1@.len() && prev.1@[k] == x;
        assert(call_ensures(f, (&prev.0,), Result::<Vec<String>, ApiError>::Ok(prev.1)));
        assert(prev.1@[k]@ == prev.0@ || (prev.1@[k]@.len() == prev.0@.len() + 1 && prev.1@[k]@.len()
            <= lmax));
        assert(x@ != prev.0@);
    }
}

/// Law: when every fetched candidate is the mask itself or a one-character
/// extension no longer than `lmax` (the longest stored string sharing the
/// seed as prefix), a finished walk from a seed of length at most `lmax`
/// makes at most `lmax - m0.len() + 1` fetches.
pub proof fn lemma_walk_bounded<F: Fn(&String) -> Result<Vec<String>, ApiError>>(
    f: F,
    m0: Seq<char>,
    tr: Seq<(String, Vec<String>)>,
    lmax: nat,
)
    requires
        fetch_chain(f, m0, tr),
        m0.len() <= lmax,
        forall|m: String, v: Vec<String>, j: int|
            #![trigger call_ensures(f, (&m,), Result::<Vec<String>, ApiError>::Ok(v)), v@[j]]
            call_ensures(f, (&m,), Result::<Vec<String>, ApiError>::Ok(v)) && 0 <= j < v@.len()
                ==> (v@[j]@ == m@ || (v@[j]@.len() == m@.len() + 1 && v@[j]@.len() <= lmax)),
    ensures
        tr.len() <= lmax - m0.len() + 1,
{
    if tr.len() >= 2 {
        lemma_mask_len_at(f, m0, tr, lmax, tr.len() - 1);
    }
}

/// Law: the same bound holds of an unfinished walk, so under the same
/// fetcher hypothesis the engine's own iteration-bound failure, which
/// needs an all-advancing record of u64::MAX fetches, cannot occur for
/// any stored data of bounded string length.
pub proof fn lemma_advancing_walk_bounded<F: Fn(&String) -> Result<Vec<String>, ApiError>>(
    f: F,
    m0: Seq<char>,
    tr: Seq<(String, Vec<String>)>,
    lmax: nat,
)
    requires
        advancing_chain(f, m0, tr),
        m0.len() <= lmax,
        forall|m: String, v: Vec<String>, j: int|
            #![trigger call_ensures(f, (&m,), Result::<Vec<String>, ApiError>::Ok(v)), v@[j]]
            call_ensures(f, (&m,), Result::<Vec<String>, ApiError>::Ok(v)) && 0 <= j < v@.len()
                ==> (v@[j]@ == m@ || (v@[j]@.len() == m@.len() + 1 && v@[j]@.len() <= lmax)),
    ensures
        tr.len() <= lmax - m0.len() + 1,
{
    if tr.len() >= 2 {
        lemma_mask_len_at(f, m0, tr, lmax, tr.len() - 1);
    }
}

/// Law: a two-candidate tail whose members fold to the same lowercase form
/// never appears among the incomplete branches: the walk treats the two as
/// one path and continues, so a finished walk's fork, when there is one,
/// holds three or more candidates or two that are not case variants.
pub proof fn lemma_case_variants_resolve<F: Fn(&String) -> Result<Vec<String>, ApiError>>(
    f: F,
    m0: Seq<char>,
    tr: Seq<(String, Vec<String>)>,
)
    requires
        fetch_chain(f, m0, tr),
    ensures
        incompletes_of(tr).len() > 0 ==> ({
            let t = tail_of(tr.last().0@, tr.last().1@);
            t.len() >= 3 || (t.len() == 2 && lower_of(t[0]@) != lower_of(t[1]@))
        }),
{
}

/// Law: a step whose tail holds three or more candidates, or two that are
/// not case variants, is always the walk's last: no further fetch happens,
/// and that whole tail is returned as the incomplete branches.
pub proof fn lemma_fork_stops<F: Fn(&String) -> Result<Vec<String>, ApiError>>(
    f: F,
    m0: Seq<char>,
    tr: Seq<(String, Vec<String>)>,
    i: int,
)
    requires
        fetch_chain(f, m0, tr),
        0 <= i < tr.len(),
        ({
            let t = tail_of(tr[i].0@, tr[i].1@);
            t.len() >= 3 || (t.len() == 2 && lower_of(t[0]@) != lower_of(t[1]@))
        }),
    ensures
        i == tr.len() - 1,
        incompletes_of(tr) == tail_of(tr[i].0@, tr[i].1@),
{
    if i < tr.len() - 1 {
        assert(step_advances(tr[i].0@, tr[i].1@));
        assert(false);
    }
    assert(tr[i] == tr.last());
}

} // verus!
