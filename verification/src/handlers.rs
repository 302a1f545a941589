//! Decisions of the event handlers that do not depend on the chat service.
use vstd::prelude::*;

use crate::org::{distinct, distinct_names};

verus! {

/// The members to record as users: each distinct one once, in order of first
/// appearance, leaving out the bot itself.
pub open spec fn users_to_record(members: Seq<Seq<char>>, own_id: Seq<char>) -> Seq<Seq<char>> {
    distinct(members).filter(other_than(own_id))
}

/// Whether a member is someone other than `own_id`.
pub open spec fn other_than(own_id: Seq<char>) -> spec_fn(Seq<char>) -> bool {
    |m: Seq<char>| m != own_id
}

proof fn lemma_push_no_duplicates(s: Seq<Seq<char>>, x: Seq<char>)
    requires
        s.no_duplicates(),
        !s.contains(x),
    ensures
        s.push(x).no_duplicates(),
{
    let t = s.push(x);
    assert forall|i: int, j: int| 0 <= i < t.len() && 0 <= j < t.len() && i != j implies t[i] != t[j] by {
        if i < s.len() && j < s.len() {
            assert(t[i] == s[i] && t[j] == s[j]);
        } else if i < s.len() {
            assert(t[i] == s[i]);
        } else if j < s.len() {
            assert(t[j] == s[j]);
        }
    }
}

proof fn lemma_contains_push(s: Seq<Seq<char>>, x: Seq<char>, y: Seq<char>)
    ensures
        s.push(x).contains(y) <==> (s.contains(y) || y == x),
{
    let t = s.push(x);
    if s.contains(y) {
        let i = choose|i: int| 0 <= i < s.len() && s[i] == y;
        assert(t[i] == y);
    }
    if y == x {
        assert(t[s.len() as int] == y);
    }
    if t.contains(y) {
        let i = choose|i: int| 0 <= i < t.len() && t[i] == y;
        if i < s.len() {
            assert(s[i] == y);
        }
    }
}

proof fn lemma_distinct(s: Seq<Seq<char>>)
    ensures
        distinct(s).no_duplicates(),
        forall|x: Seq<char>| #[trigger] distinct(s).contains(x) <==> s.contains(x),
    decreases s.len(),
{
    if s.len() > 0 {
        let rest = s.drop_last();
        lemma_distinct(rest);
        assert(s =~= rest.push(s.last()));
        assert forall|x: Seq<char>| s.contains(x) <==> (rest.contains(x) || x == s.last()) by {
            lemma_contains_push(rest, s.last(), x);
        }
        if !rest.contains(s.last()) {
            lemma_push_no_duplicates(distinct(rest), s.last());
            assert forall|x: Seq<char>| #[trigger] distinct(s).contains(x) <==> s.contains(x) by {
                lemma_contains_push(distinct(rest), s.last(), x);
            }
        }
    }
}

proof fn lemma_filter_no_duplicates(s: Seq<Seq<char>>, keep: spec_fn(Seq<char>) -> bool)
    requires
        s.no_duplicates(),
    ensures
        s.filter(keep).no_duplicates(),
    decreases s.len(),
{
    broadcast use Seq::lemma_filter_push, Seq::lemma_filter_contains_rev;

    if s.len() > 0 {
        let rest = s.drop_last();
        assert(s =~= rest.push(s.last()));
        assert(rest.no_duplicates()) by {
            assert forall|i: int, j: int| 0 <= i < rest.len() && 0 <= j < rest.len() && i != j implies rest[i] != rest[j] by {
                assert(rest[i] == s[i] && rest[j] == s[j]);
            }
        }
        lemma_filter_no_duplicates(rest, keep);
        if keep(s.last()) {
            assert(!rest.contains(s.last())) by {
                if rest.contains(s.last()) {
                    let i = choose|i: int| 0 <= i < rest.len() && rest[i] == s.last();
                    assert(s[i] == s[s.len() - 1]);
                }
            }
            assert(!rest.filter(keep).contains(s.last()));
            lemma_push_no_duplicates(rest.filter(keep), s.last());
        }
    }
}

/// Every member met is recorded once: the users to record hold no one twice,
/// never the bot itself, and exactly the members other than the bot.
pub proof fn law_users_recorded_once(members: Seq<Seq<char>>, own_id: Seq<char>)
    ensures
        users_to_record(members, own_id).no_duplicates(),
        !users_to_record(members, own_id).contains(own_id),
        forall|m: Seq<char>|
            #[trigger] users_to_record(members, own_id).contains(m) <==> (members.contains(m) && m
                != own_id),
{
    broadcast use Seq::lemma_filter_contains_rev, Seq::lemma_filter_pred;

    let keep = other_than(own_id);
    let d = distinct(members);
    lemma_distinct(members);
    lemma_filter_no_duplicates(d, keep);
    assert forall|m: Seq<char>| #[trigger] d.filter(keep).contains(m) <==> (members.contains(m) && m != own_id) by {
        if d.filter(keep).contains(m) {
            let i = choose|i: int| 0 <= i < d.filter(keep).len() && d.filter(keep)[i] == m;
            assert(keep(d.filter(keep)[i]));
        }
        if members.contains(m) && m != own_id {
            assert(d.contains(m));
            let i = choose|i: int| 0 <= i < d.len() && d[i] == m;
            d.lemma_filter_contains(keep, i);
        }
    }
}

/// The members of the bot's rooms that are to be recorded as users.
pub fn users_to_register(members: &Vec<String>, own_id: &str) -> (res: Vec<String>)
    ensures
        res.deep_view() == users_to_record(members.deep_view(), own_id@),
{
    let unique = distinct_names(members);
    let own = String::from_str(own_id);
    let ghost d = unique.deep_view();
    let ghost keep = other_than(own_id@);
    let mut res: Vec<String> = Vec::new();
    let mut i: usize = 0;
    while i < unique.len()
        invariant
            d == unique.deep_view(),
            own@ == own_id@,
            keep == other_than(own_id@),
            i <= d.len(),
            res.deep_view() == d.take(i as int).filter(keep),
        decreases unique.len() - i,
    {
        proof {
            assert(d.take(i + 1).drop_last() =~= d.take(i as int));
            assert(d.take(i + 1).last() == unique@[i as int]@);
            reveal(Seq::filter);
        }
        if unique[i] != own {
            let ghost prev = res.deep_view();
            res.push(unique[i].clone());
            assert(res.deep_view() =~= prev.push(unique@[i as int]@));
        }
        i = i + 1;
    }
    assert(d.take(d.len() as int) =~= d);
    res
}

} // verus!
