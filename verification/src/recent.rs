//! Selection of the candidate branch set.
//!
//! When the caller names no branches, the engine compares the most recently
//! committed remote-tracking branches. The selector drops the symbolic
//! `origin/HEAD` alias (it only mirrors another branch's tip), skips any
//! branch whose name or tip could not be resolved, orders the rest by the
//! committer timestamp of their tips with the most recent first, keeps at
//! most `limit` of them, and strips the `origin/` remote prefix from each
//! name before returning it.

use crate::errors::GitError;
use crate::gitio;
use vstd::prelude::*;

verus! {

use vstd::string::StringExecFns;

/// What the repository layer reports of one remote-tracking branch: its name
/// and the committer timestamp, in seconds, of its tip commit. A part that
/// could not be resolved is absent; such a branch is skipped, never fatal.
pub struct BranchTip {
    pub name: Option<String>,
    pub time: Option<i64>,
}

/// One branch kept by the selector: a resolved name and its tip timestamp.
pub struct Candidate {
    pub time: i64,
    pub name: String,
}

/// Whether the selector keeps a reported branch: both parts resolved, and
/// not the symbolic alias that merely mirrors the remote's default branch.
pub open spec fn keeps(tip: BranchTip) -> bool {
    &&& tip.name is Some
    &&& tip.time is Some
    &&& tip.name->0@ != "origin/HEAD"@
}

/// The candidate a kept branch turns into.
pub open spec fn candidate_of(tip: BranchTip) -> Candidate {
    Candidate { time: tip.time->0, name: tip.name->0 }
}

/// The kept branches, in reported order.
pub open spec fn candidates_of(tips: Seq<BranchTip>) -> Seq<Candidate>
    decreases tips.len(),
{
    if tips.len() == 0 {
        Seq::empty()
    } else {
        let rest = candidates_of(tips.drop_last());
        if keeps(tips.last()) {
            rest.push(candidate_of(tips.last()))
        } else {
            rest
        }
    }
}

/// Insertion into a most-recent-first list: a strictly newer candidate goes
/// in front, so that among candidates of equal timestamp the earlier-listed
/// one stays first.
pub open spec fn insert_desc(c: Candidate, s: Seq<Candidate>) -> Seq<Candidate>
    decreases s.len(),
{
    if s.len() == 0 {
        seq![c]
    } else if c.time > s[0].time {
        seq![c] + s
    } else {
        seq![s[0]] + insert_desc(c, s.drop_first())
    }
}

/// Stable sort by tip timestamp, most recent first. "Recent" means
/// most-recently-committed: taking a prefix of this order yields the newest
/// branches, not the oldest.
pub open spec fn sort_desc(s: Seq<Candidate>) -> Seq<Candidate>
    decreases s.len(),
{
    if s.len() == 0 {
        Seq::empty()
    } else {
        insert_desc(s.last(), sort_desc(s.drop_last()))
    }
}

/// A branch name with the remote-prefix decoration removed: a name recorded
/// as `origin/<name>` is reported as plain `<name>`.
pub open spec fn strip_origin(name: Seq<char>) -> Seq<char> {
    if name.len() >= 7 && name.subrange(0, 7) == "origin/"@ {
        name.subrange(7, name.len() as int)
    } else {
        name
    }
}

/// The names the selector returns for the reported branches: keep, sort most
/// recent first, cut to `limit`, strip the remote prefix.
pub open spec fn selection(tips: Seq<BranchTip>, limit: int) -> Seq<Seq<char>> {
    let sorted = sort_desc(candidates_of(tips));
    let taken = if limit < sorted.len() {
        sorted.take(limit)
    } else {
        sorted
    };
    taken.map_values(|c: Candidate| strip_origin(c.name@))
}

/// Law: a branch name recorded with the remote-prefix decoration, as every
/// remote-tracking branch is, is reported with the decoration removed: for
/// any name, stripping `origin/` + name gives back name.
pub proof fn lemma_strip_origin_prefixed(name: Seq<char>)
    ensures
        strip_origin("origin/"@ + name) == name,
{
    reveal_strlit("origin/");
    let full = "origin/"@ + name;
    assert(full.subrange(0, 7) =~= "origin/"@);
    assert(full.subrange(7, full.len() as int) =~= name);
}

/// Timestamps never increase along the list: the most recently committed
/// branch comes first.
pub open spec fn most_recent_first(s: Seq<Candidate>) -> bool {
    forall|x: int, y: int| 0 <= x < y < s.len() ==> s[x].time >= s[y].time
}

proof fn lemma_insert_desc_ordered(c: Candidate, s: Seq<Candidate>)
    requires
        most_recent_first(s),
    ensures
        most_recent_first(insert_desc(c, s)),
        insert_desc(c, s).to_multiset() == s.to_multiset().insert(c),
    decreases s.len(),
{
    broadcast use vstd::seq_lib::group_to_multiset_ensures;

    if s.len() == 0 {
        assert(seq![c] =~= Seq::<Candidate>::empty().push(c));
    } else if c.time > s[0].time {
        assert(seq![c] + s =~= s.insert(0, c));
        vstd::seq_lib::to_multiset_insert(s, 0, c);
    } else {
        let rest = s.drop_first();
        assert(forall|x: int, y: int| 0 <= x < y < rest.len() ==> rest[x].time >= rest[y].time);
        lemma_insert_desc_ordered(c, rest);
        let tail = insert_desc(c, rest);
        let whole = seq![s[0]] + tail;
        assert(whole =~= tail.insert(0, s[0]));
        vstd::seq_lib::to_multiset_insert(tail, 0, s[0]);
        assert(s =~= rest.insert(0, s[0]));
        vstd::seq_lib::to_multiset_insert(rest, 0, s[0]);
        assert(whole.to_multiset() =~= s.to_multiset().insert(c));
        assert forall|x: int, y: int|
            0 <= x < y < whole.len() implies whole[x].time >= whole[y].time by {
            if x > 0 {
                assert(whole[x] == tail[x - 1] && whole[y] == tail[y - 1]);
            } else {
                let e = whole[y];
                assert(tail[y - 1] == e);
                assert(tail.to_multiset().count(e) > 0);
                if rest.to_multiset().count(e) > 0 {
                    assert(rest.contains(e));
                    let w = choose|w: int| 0 <= w < rest.len() && rest[w] == e;
                    assert(s[w + 1] == e);
                    assert(s[0].time >= e.time);
                } else {
                    assert(e == c);
                }
            }
        }
    }
}

/// Law: the selector's order really is by tip timestamp with the most
/// recent first, and sorting loses or invents no candidate.
pub proof fn lemma_sort_desc_ordered(s: Seq<Candidate>)
    ensures
        most_recent_first(sort_desc(s)),
        sort_desc(s).to_multiset() == s.to_multiset(),
    decreases s.len(),
{
    broadcast use vstd::seq_lib::group_to_multiset_ensures;

    if s.len() == 0 {
    } else {
        let front = s.drop_last();
        lemma_sort_desc_ordered(front);
        lemma_insert_desc_ordered(s.last(), sort_desc(front));
        assert(s =~= front.push(s.last()));
    }
}

proof fn lemma_candidates_take_step(tips: Seq<BranchTip>, i: int)
    requires
        0 <= i < tips.len(),
    ensures
        candidates_of(tips.take(i + 1)) == if keeps(tips[i]) {
            candidates_of(tips.take(i)).push(candidate_of(tips[i]))
        } else {
            candidates_of(tips.take(i))
        },
{
    assert(tips.take(i + 1).drop_last() =~= tips.take(i));
    assert(tips.take(i + 1).last() == tips[i]);
}

proof fn lemma_sort_take_step(s: Seq<Candidate>, i: int)
    requires
        0 <= i < s.len(),
    ensures
        sort_desc(s.take(i + 1)) == insert_desc(s[i], sort_desc(s.take(i))),
{
    assert(s.take(i + 1).drop_last() =~= s.take(i));
    assert(s.take(i + 1).last() == s[i]);
}

proof fn lemma_insert_desc_at(c: Candidate, s: Seq<Candidate>, pos: int)
    requires
        0 <= pos <= s.len(),
        forall|j: int| 0 <= j < pos ==> s[j].time >= c.time,
        pos < s.len() ==> s[pos].time < c.time,
    ensures
        insert_desc(c, s) == s.insert(pos, c),
    decreases pos,
{
    if pos == 0 {
        if s.len() == 0 {
            assert(insert_desc(c, s) =~= s.insert(0, c));
        } else {
            assert(s[0].time < c.time);
            assert(seq![c] + s =~= s.insert(0, c));
        }
    } else {
        assert(s[0].time >= c.time);
        assert(forall|j: int| 0 <= j < pos - 1 ==> s.drop_first()[j].time >= c.time);
        lemma_insert_desc_at(c, s.drop_first(), pos - 1);
        assert(seq![s[0]] + s.drop_first().insert(pos - 1, c) =~= s.insert(pos, c));
    }
}

/// The selector's pure core: turns what the repository layer reported into
/// the ordered candidate names. Keeps resolvable branches other than the
/// `origin/HEAD` alias, orders them most-recently-committed first, keeps at
/// most `limit`, and strips the `origin/` prefix from each name.
pub fn select_from_tips(tips: Vec<BranchTip>, limit: usize) -> (r: Vec<String>)
    ensures
        r.deep_view() == selection(tips@, limit as int),
{
    let mut kept: Vec<Candidate> = Vec::new();
    let head_alias: String = "origin/HEAD".to_owned();
    let mut i: usize = 0;
    while i < tips.len()
        invariant
            i <= tips@.len(),
            kept@ == candidates_of(tips@.take(i as int)),
            head_alias@ == "origin/HEAD"@,
        decreases tips@.len() - i,
    {
        let tip = &tips[i];
        if let Some(name) = &tip.name {
            if let Some(time) = &tip.time {
                if !(*name == head_alias) {
                    kept.push(Candidate { time: *time, name: name.clone() });
                    assert(kept@.last() == candidate_of(tips@[i as int]));
                }
            }
        }
        proof {
            lemma_candidates_take_step(tips@, i as int);
        }
        i = i + 1;
    }
    assert(tips@.take(tips@.len() as int) =~= tips@);

    let mut sorted: Vec<Candidate> = Vec::new();
    let mut k: usize = 0;
    while k < kept.len()
        invariant
            k <= kept@.len(),
            sorted@ == sort_desc(kept@.take(k as int)),
            kept@ == candidates_of(tips@),
        decreases kept@.len() - k,
    {
        let c = Candidate { time: kept[k].time, name: kept[k].name.clone() };
        assert(c == kept@[k as int]);
        let mut pos: usize = 0;
        while pos < sorted.len() && sorted[pos].time >= c.time
            invariant
                pos <= sorted@.len(),
                forall|j: int| 0 <= j < pos ==> sorted@[j].time >= c.time,
            decreases sorted@.len() - pos,
        {
            pos = pos + 1;
        }
        proof {
            lemma_insert_desc_at(c, sorted@, pos as int);
            lemma_sort_take_step(kept@, k as int);
        }
        sorted.insert(pos, c);
        k = k + 1;
    }
    assert(kept@.take(kept@.len() as int) =~= kept@);
    assert(sorted@ == sort_desc(candidates_of(tips@)));

    let n: usize = if limit < sorted.len() {
        limit
    } else {
        sorted.len()
    };
    let mut out: Vec<String> = Vec::new();
    let mut t: usize = 0;
    while t < n
        invariant
            t <= n,
            n <= sorted@.len(),
            n == if (limit as int) < sorted@.len() {
                limit as int
            } else {
                sorted@.len() as int
            },
            out@.len() == t,
            forall|j: int| 0 <= j < t ==> out@[j]@ == strip_origin(sorted@[j].name@),
        decreases n - t,
    {
        let stripped = strip_origin_prefix(&sorted[t].name);
        out.push(stripped);
        t = t + 1;
    }
    proof {
        let sel = selection(tips@, limit as int);
        assert(out.deep_view().len() == sel.len());
        assert forall|j: int| 0 <= j < sel.len() implies out.deep_view()[j] == sel[j] by {
            assert(out.deep_view()[j] == out@[j]@);
            assert(out@[j]@ == strip_origin(sorted@[j].name@));
        }
        assert(out.deep_view() =~= sel);
    }
    out
}

/// Produces the ordered list of branch names to compare when the caller
/// names none: the up-to-`limit` most recently committed remote-tracking
/// branches, without the `origin/` prefix. Only a failure to enumerate the
/// branches at all is an error; an individual branch that cannot be resolved
/// is skipped. What is returned depends on the repository on disk; the exact
/// relation between the reported branches and the result is the contract of
/// `select_from_tips`.
pub fn select_recent(repo: &git2::Repository, limit: usize) -> (r: Result<
    Vec<String>,
    GitError,
>)
    ensures
        r matches Ok(names) ==> names@.len() <= limit,
{
    match gitio::remote_branch_tips(repo) {
        Ok(tips) => {
            let ghost reported = tips@;
            let names = select_from_tips(tips, limit);
            proof {
                assert(names.deep_view().len() == names@.len());
                assert(selection(reported, limit as int).len() <= limit);
            }
            Ok(names)
        },
        Err(error) => Err(GitError::from_git(&error)),
    }
}

/// Removes the `origin/` prefix from a branch name, if it carries one.
fn strip_origin_prefix(name: &String) -> (r: String)
    ensures
        r@ == strip_origin(name@),
{
    let len = name.as_str().unicode_len();
    if len >= 7 {
        let head: String = name.as_str().substring_char(0, 7).to_owned();
        let prefix: String = "origin/".to_owned();
        if head == prefix {
            name.as_str().substring_char(7, len).to_owned()
        } else {
            name.clone()
        }
    } else {
        name.clone()
    }
}

} // verus!
