use vstd::prelude::*;

use crate::agents::{AgentEntry, entries, first_root_id, opt_view, root_id_from_agents};
use crate::text::{owned, str_eq};

verus! {

/// Character views of a list of strings.
pub open spec fn views(v: Seq<String>) -> Seq<Seq<char>> {
    v.map_values(|s: String| s@)
}

/// Some element of `agents` has id `child` and reports to `parent`.
pub open spec fn reports_to(agents: Seq<AgentEntry>, parent: Seq<char>, child: Seq<char>) -> bool {
    exists|j: int|
        0 <= j < agents.len() && opt_view(#[trigger] agents[j].id) == Some(child)
            && opt_view(agents[j].parent_id) == Some(parent)
}

/// `p` is a chain of ids, each reporting to the one before it.
pub open spec fn is_chain(agents: Seq<AgentEntry>, p: Seq<Seq<char>>) -> bool {
    &&& p.len() >= 1
    &&& forall|i: int| 0 <= i < p.len() - 1 ==> #[trigger] reports_to(agents, p[i], p[i + 1])
}

/// `x` is `root` itself or sits anywhere below it in the reporting tree.
pub open spec fn in_downline(agents: Seq<AgentEntry>, root: Seq<char>, x: Seq<char>) -> bool {
    exists|p: Seq<Seq<char>>| is_chain(agents, p) && p[0] == root && #[trigger] p.last() == x
}

/// The root the downline is collected from: the first agent holding the role,
/// else the fallback id.
pub open spec fn downline_root(
    agents: Option<Vec<AgentEntry>>,
    role_slug: Seq<char>,
    fallback_root: Option<Seq<char>>,
) -> Option<Seq<char>> {
    match first_root_id(entries(agents), role_slug) {
        Some(r) => Some(r),
        None => fallback_root,
    }
}

/// Ids that can stand in the collected set: the root and every agent's id.
spec fn candidates(agents: Seq<AgentEntry>, root: Seq<char>) -> Seq<Seq<char>> {
    seq![root] + agents.map_values(|e: AgentEntry| match opt_view(e.id) {
        Some(v) => v,
        None => root,
    })
}

fn contains_str(v: &Vec<String>, s: &str) -> (r: bool)
    ensures
        r == views(v@).contains(s@),
{
    let n = v.len();
    let mut i: usize = 0;
    while i < n
        invariant
            n == v@.len(),
            i <= n,
            forall|k: int| 0 <= k < i ==> v@[k]@ != s@,
        decreases n - i,
    {
        if str_eq(v[i].as_str(), s) {
            assert(views(v@)[i as int] == s@);
            return true;
        }
        i = i + 1;
    }
    assert forall|k: int| 0 <= k < views(v@).len() implies views(v@)[k] != s@ by {
        assert(views(v@)[k] == v@[k]@);
    }
    false
}

proof fn lemma_extend_chain(agents: Seq<AgentEntry>, root: Seq<char>, parent: Seq<char>, child: Seq<char>)
    requires
        in_downline(agents, root, parent),
        reports_to(agents, parent, child),
    ensures
        in_downline(agents, root, child),
{
    let p = choose|p: Seq<Seq<char>>| is_chain(agents, p) && p[0] == root && #[trigger] p.last() == parent;
    let q = p.push(child);
    assert forall|i: int| 0 <= i < q.len() - 1 implies #[trigger] reports_to(agents, q[i], q[i + 1]) by {
        if i < p.len() - 1 {
            assert(q[i] == p[i] && q[i + 1] == p[i + 1]);
        } else {
            assert(q[i] == parent && q[i + 1] == child);
        }
    }
    assert(q.last() == child);
}

proof fn lemma_root_in_downline(agents: Seq<AgentEntry>, root: Seq<char>)
    ensures
        in_downline(agents, root, root),
{
    let p = seq![root];
    assert(is_chain(agents, p));
    assert(p.last() == root);
}

proof fn lemma_chain_prefix_in(agents: Seq<AgentEntry>, out: Seq<Seq<char>>, p: Seq<Seq<char>>, k: int)
    requires
        is_chain(agents, p),
        out.contains(p[0]),
        forall|a: Seq<char>, b: Seq<char>| out.contains(a) && reports_to(agents, a, b) ==> out.contains(b),
        0 <= k < p.len(),
    ensures
        out.contains(p[k]),
    decreases k,
{
    if k > 0 {
        lemma_chain_prefix_in(agents, out, p, k - 1);
        let i = k - 1;
        assert(reports_to(agents, p[i], p[i + 1]));
    }
}

/// A set holding the root and closed under "reports to" holds the whole
/// downline.
proof fn lemma_closed_holds_downline(agents: Seq<AgentEntry>, root: Seq<char>, out: Seq<Seq<char>>, x: Seq<char>)
    requires
        out.contains(root),
        forall|a: Seq<char>, b: Seq<char>| out.contains(a) && reports_to(agents, a, b) ==> out.contains(b),
        in_downline(agents, root, x),
    ensures
        out.contains(x),
{
    let p = choose|p: Seq<Seq<char>>| is_chain(agents, p) && p[0] == root && #[trigger] p.last() == x;
    lemma_chain_prefix_in(agents, out, p, p.len() - 1);
}

proof fn lemma_bounded_len(agents: Seq<AgentEntry>, root: Seq<char>, out: Seq<Seq<char>>)
    requires
        out.no_duplicates(),
        forall|k: int| 0 <= k < out.len() ==> candidates(agents, root).contains(#[trigger] out[k]),
    ensures
        out.len() <= agents.len() + 1,
{
    let c = candidates(agents, root);
    out.unique_seq_to_set();
    c.lemma_cardinality_of_set();
    assert(out.to_set().subset_of(c.to_set())) by {
        assert forall|x: Seq<char>| out.to_set().contains(x) implies c.to_set().contains(x) by {
            let k = choose|k: int| 0 <= k < out.len() && out[k] == x;
            assert(c.contains(out[k]));
        }
    }
    vstd::set_lib::lemma_len_subset(out.to_set(), c.to_set());
}

/// Collects a subject's own id and every id below it in the reporting tree:
/// the subject is the first agent with role `role_slug`, else `fallback_root`;
/// the tree links each agent to its `parentId`. The result holds each id once;
/// it is empty when there is no subject.
pub fn collect_direct_and_downline_seller_ids(
    agents: &Option<Vec<AgentEntry>>,
    role_slug: &str,
    fallback_root: Option<&str>,
) -> (r: Vec<String>)
    ensures
        views(r@).no_duplicates(),
        downline_root(*agents, role_slug@, match fallback_root {
            Some(f) => Some(f@),
            None => None,
        }) matches Some(root) ==> forall|x: Seq<char>|
            views(r@).contains(x) <==> in_downline(entries(*agents), root, x),
        downline_root(*agents, role_slug@, match fallback_root {
            Some(f) => Some(f@),
            None => None,
        }) is None ==> r@.len() == 0,
{
    let root: String = match root_id_from_agents(agents, role_slug) {
        Some(r) => r,
        None => match fallback_root {
            Some(f) => owned(f),
            None => return Vec::new(),
        },
    };
    let ghost es = entries(*agents);
    let ghost rv = root@;
    let empty: Vec<AgentEntry> = Vec::new();
    let items: &Vec<AgentEntry> = match agents {
        Some(v) => v,
        None => &empty,
    };
    assert(items@ == es);
    let n = items.len();
    let mut out: Vec<String> = Vec::new();
    out.push(root);
    let mut head: usize = 0;
    proof {
        lemma_root_in_downline(es, rv);
        assert(views(out@) =~= seq![rv]);
        assert(candidates(es, rv)[0] == rv);
    }
    while head < out.len()
        invariant
            items@ == es,
            n == es.len(),
            head <= out.len(),
            views(out@).no_duplicates(),
            out.len() >= 1,
            views(out@)[0] == rv,
            forall|k: int| 0 <= k < out.len() ==> in_downline(es, rv, #[trigger] views(out@)[k]),
            forall|k: int| 0 <= k < out.len() ==> candidates(es, rv).contains(#[trigger] views(out@)[k]),
            forall|k: int, c: Seq<char>|
                0 <= k < head && #[trigger] reports_to(es, views(out@)[k], c) ==> views(out@).contains(c),
        decreases es.len() + 1 - head,
    {
        proof {
            lemma_bounded_len(es, rv, views(out@));
        }
        let cur: String = out[head].clone();
        let ghost cv = cur@;
        assert(cv == views(out@)[head as int]);
        let ghost before = views(out@);
        let mut j: usize = 0;
        while j < n
            invariant
                items@ == es,
                n == es.len(),
                j <= n,
                head < out.len(),
                cur@ == cv,
                cv == views(out@)[head as int],
                views(out@).len() >= before.len(),
                forall|k: int| 0 <= k < before.len() ==> views(out@)[k] == before[k],
                views(out@).no_duplicates(),
                views(out@)[0] == rv,
                forall|k: int| 0 <= k < out.len() ==> in_downline(es, rv, #[trigger] views(out@)[k]),
                forall|k: int| 0 <= k < out.len() ==> candidates(es, rv).contains(#[trigger] views(out@)[k]),
                in_downline(es, rv, cv),
                forall|jj: int|
                    0 <= jj < j && opt_view(#[trigger] es[jj].parent_id) == Some(cv) && es[jj].id is Some
                        ==> views(out@).contains(opt_view(es[jj].id).unwrap()),
            decreases n - j,
        {
            let e = &items[j];
            assert(es[j as int] == *e);
            match (&e.id, &e.parent_id) {
                (Some(id), Some(parent)) => {
                    if str_eq(parent.as_str(), cur.as_str()) {
                        proof {
                            assert(opt_view(es[j as int].id) == Some(id@));
                            assert(opt_view(es[j as int].parent_id) == Some(cv));
                            assert(reports_to(es, cv, id@));
                        }
                        if !contains_str(&out, id.as_str()) {
                            let ghost old_views = views(out@);
                            proof {
                                lemma_extend_chain(es, rv, cv, id@);
                                assert(candidates(es, rv)[j + 1] == id@);
                            }
                            out.push(owned(id.as_str()));
                            proof {
                                assert(views(out@) =~= old_views.push(id@));
                                assert forall|a: int, b: int| 0 <= a < b < views(out@).len()
                                    implies views(out@)[a] != views(out@)[b] by {
                                    if b == views(out@).len() - 1 {
                                        assert(old_views.contains(old_views[a]));
                                    }
                                }
                                assert forall|x: Seq<char>| old_views.contains(x) implies views(out@).contains(x) by {
                                    let k = choose|k: int| 0 <= k < old_views.len() && old_views[k] == x;
                                    assert(views(out@)[k] == x);
                                }
                                assert(views(out@)[views(out@).len() - 1] == id@);
                            }
                        }
                    }
                },
                _ => {},
            }
            j = j + 1;
        }
        proof {
            assert forall|c: Seq<char>| #[trigger] reports_to(es, cv, c) implies views(out@).contains(c) by {
                let jj = choose|jj: int| 0 <= jj < es.len() && opt_view(#[trigger] es[jj].id) == Some(c)
                    && opt_view(es[jj].parent_id) == Some(cv);
                assert(opt_view(es[jj].parent_id) == Some(cv));
            }
            assert forall|k: int, c: Seq<char>|
                0 <= k < head + 1 && #[trigger] reports_to(es, views(out@)[k], c) implies views(out@).contains(c) by {
                if k < head {
                    assert(views(out@)[k] == before[k]);
                    assert(before.contains(c));
                    let kk = choose|kk: int| 0 <= kk < before.len() && before[kk] == c;
                    assert(views(out@)[kk] == c);
                } else {
                    assert(views(out@)[k] == cv);
                }
            }
        }
        head = head + 1;
    }
    proof {
        let o = views(out@);
        assert(o.contains(rv)) by {
            assert(o[0] == rv);
        }
        assert forall|a: Seq<char>, b: Seq<char>| o.contains(a) && reports_to(es, a, b) implies o.contains(b) by {
            let k = choose|k: int| 0 <= k < o.len() && o[k] == a;
            assert(reports_to(es, o[k], b));
        }
        assert forall|x: Seq<char>| o.contains(x) <==> in_downline(es, rv, x) by {
            if in_downline(es, rv, x) {
                lemma_closed_holds_downline(es, rv, o, x);
            }
            if o.contains(x) {
                let k = choose|k: int| 0 <= k < o.len() && o[k] == x;
                assert(in_downline(es, rv, o[k]));
            }
        }
    }
    out
}

/// Project column that records the root of an upline role's tree for the
/// roles that have one (lead broker and titling officer); other roles are
/// found through the agents list alone.
pub fn legacy_root_column(role_slug: &str) -> (r: Option<&'static str>)
    ensures
        role_slug@ == "lead-broker"@ ==> (r matches Some(c) && c@ == "lead_broker_roster_id"@),
        role_slug@ == "titling-officer"@ ==> (r matches Some(c) && c@ == "titling_officer_roster_id"@),
        role_slug@ != "lead-broker"@ && role_slug@ != "titling-officer"@ ==> r is None,
{
    proof {
        reveal_strlit("lead-broker");
        reveal_strlit("titling-officer");
        assert("lead-broker"@[0] != "titling-officer"@[0]);
    }
    if crate::text::str_eq(role_slug, "lead-broker") {
        Some("lead_broker_roster_id")
    } else if crate::text::str_eq(role_slug, "titling-officer") {
        Some("titling_officer_roster_id")
    } else {
        None
    }
}

} // verus!
