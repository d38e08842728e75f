use vstd::prelude::*;

use crate::error::ApiError;
use crate::ids::{parse_uuid, uuid_display, uuid_parse_result, uuid_to_string};
use crate::text::{owned, str_eq};

verus! {

/// One element of a project's agents list (`agents_json`), holding what the
/// logic reads of it. A key is `Some` only when the element is an object that
/// maps that key to a string.
#[derive(Debug)]
pub struct AgentEntry {
    /// The element is a JSON object.
    pub is_object: bool,
    /// `"id"`: the roster id of the agent.
    pub id: Option<String>,
    /// `"name"`: display name.
    pub name: Option<String>,
    /// `"role"`: role slug such as `lead-broker`, `titling-officer` or `agent`.
    pub role: Option<String>,
    /// `"parentId"`: id of the upline this agent reports to.
    pub parent_id: Option<String>,
}

/// Character view of an optional string.
pub open spec fn opt_view(s: Option<String>) -> Option<Seq<char>> {
    match s {
        Some(v) => Some(v@),
        None => None,
    }
}

/// Characters of an optional string, empty when absent.
pub open spec fn text_or_empty(s: Option<String>) -> Seq<char> {
    match s {
        Some(v) => v@,
        None => Seq::empty(),
    }
}

/// Elements of an agents list; a value that is not an array has none.
pub open spec fn entries(agents: Option<Vec<AgentEntry>>) -> Seq<AgentEntry> {
    match agents {
        Some(v) => v@,
        None => Seq::empty(),
    }
}

// ---------------------------------------------------------------------------
// Validation
// ---------------------------------------------------------------------------

/// The refusal an agents-list element earns, if any.
pub open spec fn agent_entry_error(e: AgentEntry) -> Option<ApiError> {
    if !e.is_object {
        Some(ApiError::AgentNotObject)
    } else if !(opt_view(e.id) matches Some(v) && v.len() > 0) {
        Some(ApiError::AgentIdRequired)
    } else if !(opt_view(e.name) matches Some(v) && v.len() > 0) {
        Some(ApiError::AgentNameRequired)
    } else if !(opt_view(e.role) matches Some(v) && v.len() > 0) {
        Some(ApiError::AgentRoleRequired)
    } else {
        None
    }
}

/// The refusal of the first element of `s` that earns one.
pub open spec fn first_agent_error(s: Seq<AgentEntry>) -> Option<ApiError>
    decreases s.len(),
{
    if s.len() == 0 {
        None
    } else if agent_entry_error(s[0]) is Some {
        agent_entry_error(s[0])
    } else {
        first_agent_error(s.drop_first())
    }
}

fn non_empty(s: &Option<String>) -> (r: bool)
    ensures
        r == (opt_view(*s) matches Some(v) && v.len() > 0),
{
    match s {
        Some(v) => !v.as_str().is_empty(),
        None => false,
    }
}

/// Checks an agents list: it must be an array of objects, each with a non-empty
/// string `id`, `name` and `role`; the first offending element decides the error.
pub fn validate_agents_json(agents: &Option<Vec<AgentEntry>>) -> (r: Result<(), ApiError>)
    ensures
        agents is None ==> r == Err::<(), ApiError>(ApiError::AgentsNotArray),
        agents is Some ==> (match first_agent_error(entries(*agents)) {
            Some(e) => r == Err::<(), ApiError>(e),
            None => r is Ok,
        }),
{
    let items = match agents {
        Some(v) => v,
        None => return Err(ApiError::AgentsNotArray),
    };
    let n = items.len();
    let mut i: usize = 0;
    assert(items@.subrange(0, n as int) =~= items@);
    while i < n
        invariant
            agents is Some,
            entries(*agents) == items@,
            n == items@.len(),
            i <= n,
            first_agent_error(items@) == first_agent_error(items@.subrange(i as int, n as int)),
        decreases n - i,
    {
        let e = &items[i];
        assert(items@.subrange(i as int, n as int)[0] == items@[i as int]);
        assert(items@.subrange(i as int, n as int).drop_first() =~= items@.subrange(i + 1, n as int));
        if !e.is_object {
            return Err(ApiError::AgentNotObject);
        }
        if !non_empty(&e.id) {
            return Err(ApiError::AgentIdRequired);
        }
        if !non_empty(&e.name) {
            return Err(ApiError::AgentNameRequired);
        }
        if !non_empty(&e.role) {
            return Err(ApiError::AgentRoleRequired);
        }
        i = i + 1;
    }
    assert(items@.subrange(n as int, n as int) =~= Seq::<AgentEntry>::empty());
    Ok(())
}

// ---------------------------------------------------------------------------
// Root lookups
// ---------------------------------------------------------------------------

/// Ids of the first `lead-broker` and first `titling-officer` object elements
/// of `s` (scanning in order, starting from `acc`), each parsed as a UUID. An
/// element claims its role's slot while the slot is still empty, even when its id
/// does not parse (the slot then stays empty for later elements).
pub open spec fn root_ids_from(s: Seq<AgentEntry>, acc: (Option<u128>, Option<u128>)) -> (Option<u128>, Option<u128>)
    decreases s.len(),
{
    if s.len() == 0 {
        acc
    } else {
        let e = s[0];
        let id = match opt_view(e.id) {
            Some(t) => uuid_parse_result(t),
            None => None,
        };
        let role = text_or_empty(e.role);
        let next = if !e.is_object {
            acc
        } else if role == "lead-broker"@ && acc.0 is None {
            (id, acc.1)
        } else if role == "titling-officer"@ && acc.1 is None {
            (acc.0, id)
        } else {
            acc
        };
        root_ids_from(s.drop_first(), next)
    }
}

fn parse_opt_uuid(s: &Option<String>) -> (r: Option<u128>)
    ensures
        r == (match opt_view(*s) {
            Some(t) => uuid_parse_result(t),
            None => None,
        }),
{
    match s {
        Some(v) => parse_uuid(v.as_str()),
        None => None,
    }
}

fn role_is(role: &Option<String>, slug: &str) -> (r: bool)
    ensures
        r == (text_or_empty(*role) == slug@),
{
    match role {
        Some(v) => str_eq(v.as_str(), slug),
        None => {
            let e: &str = "";
            proof {
                reveal_strlit("");
            }
            assert(e@ =~= Seq::<char>::empty());
            str_eq(e, slug)
        },
    }
}

/// Roster ids of a project's lead broker and titling officer, read from the
/// agents list (an element's id is the roster id).
pub fn root_roster_ids_from_agents(agents: &Option<Vec<AgentEntry>>) -> (r: (Option<u128>, Option<u128>))
    ensures
        agents is None ==> r == (None::<u128>, None::<u128>),
        agents is Some ==> r == root_ids_from(entries(*agents), (None, None)),
{
    let items = match agents {
        Some(v) => v,
        None => return (None, None),
    };
    let mut lead_broker: Option<u128> = None;
    let mut titling_officer: Option<u128> = None;
    let n = items.len();
    let mut i: usize = 0;
    assert(items@.subrange(0, n as int) =~= items@);
    while i < n
        invariant
            agents is Some,
            entries(*agents) == items@,
            n == items@.len(),
            i <= n,
            root_ids_from(items@, (None, None))
                == root_ids_from(items@.subrange(i as int, n as int), (lead_broker, titling_officer)),
        decreases n - i,
    {
        let e = &items[i];
        assert(items@.subrange(i as int, n as int)[0] == items@[i as int]);
        assert(items@.subrange(i as int, n as int).drop_first() =~= items@.subrange(i + 1, n as int));
        if e.is_object {
            let id = parse_opt_uuid(&e.id);
            if role_is(&e.role, "lead-broker") && lead_broker.is_none() {
                lead_broker = id;
            } else if role_is(&e.role, "titling-officer") && titling_officer.is_none() {
                titling_officer = id;
            }
        }
        i = i + 1;
    }
    assert(items@.subrange(n as int, n as int) =~= Seq::<AgentEntry>::empty());
    (lead_broker, titling_officer)
}

/// Id of the first element of `s` whose role is `role_slug` and which has an id.
pub open spec fn first_root_id(s: Seq<AgentEntry>, role_slug: Seq<char>) -> Option<Seq<char>>
    decreases s.len(),
{
    if s.len() == 0 {
        None
    } else if opt_view(s[0].role) == Some(role_slug) && s[0].id is Some {
        opt_view(s[0].id)
    } else {
        first_root_id(s.drop_first(), role_slug)
    }
}

/// The id of the first agent holding role `role_slug` (that has an id).
pub fn root_id_from_agents(agents: &Option<Vec<AgentEntry>>, role_slug: &str) -> (r: Option<String>)
    ensures
        opt_view(r) == first_root_id(entries(*agents), role_slug@),
{
    let items = match agents {
        Some(v) => v,
        None => return None,
    };
    let n = items.len();
    let mut i: usize = 0;
    assert(items@.subrange(0, n as int) =~= items@);
    while i < n
        invariant
            agents is Some,
            entries(*agents) == items@,
            n == items@.len(),
            i <= n,
            first_root_id(items@, role_slug@) == first_root_id(items@.subrange(i as int, n as int), role_slug@),
        decreases n - i,
    {
        let e = &items[i];
        assert(items@.subrange(i as int, n as int)[0] == items@[i as int]);
        assert(items@.subrange(i as int, n as int).drop_first() =~= items@.subrange(i + 1, n as int));
        if let Some(role) = &e.role {
            if str_eq(role.as_str(), role_slug) {
                if let Some(id) = &e.id {
                    return Some(owned(id.as_str()));
                }
            }
        }
        i = i + 1;
    }
    assert(items@.subrange(n as int, n as int) =~= Seq::<AgentEntry>::empty());
    None
}

/// The id of the project's first titling officer (that has an id).
pub fn titling_officer_id_from_agents(agents: &Option<Vec<AgentEntry>>) -> (r: Option<String>)
    ensures
        opt_view(r) == first_root_id(entries(*agents), "titling-officer"@),
{
    root_id_from_agents(agents, "titling-officer")
}

/// The titling officer a project's commission data is keyed on: the agents
/// list's titling officer, else the legacy roster column's id as text.
pub fn resolve_to_subject_id(agents: &Option<Vec<AgentEntry>>, titling_officer_roster_id: Option<u128>) -> (r: Option<String>)
    ensures
        first_root_id(entries(*agents), "titling-officer"@) is Some
            ==> opt_view(r) == first_root_id(entries(*agents), "titling-officer"@),
        first_root_id(entries(*agents), "titling-officer"@) is None ==> opt_view(r) == (match titling_officer_roster_id {
            Some(id) => Some(uuid_display(id)),
            None => None,
        }),
{
    match titling_officer_id_from_agents(agents) {
        Some(id) => Some(id),
        None => match titling_officer_roster_id {
            Some(id) => Some(uuid_to_string(id)),
            None => None,
        },
    }
}

/// Name of the first element of `s` whose id is `agent_id` and which has a name.
pub open spec fn first_agent_name(s: Seq<AgentEntry>, agent_id: Seq<char>) -> Option<Seq<char>>
    decreases s.len(),
{
    if s.len() == 0 {
        None
    } else if opt_view(s[0].id) == Some(agent_id) && s[0].name is Some {
        opt_view(s[0].name)
    } else {
        first_agent_name(s.drop_first(), agent_id)
    }
}

/// Display name of agent `agent_id` in the agents list.
pub fn agent_name_from_json(agents: &Option<Vec<AgentEntry>>, agent_id: &str) -> (r: Option<String>)
    ensures
        opt_view(r) == first_agent_name(entries(*agents), agent_id@),
{
    let items = match agents {
        Some(v) => v,
        None => return None,
    };
    let n = items.len();
    let mut i: usize = 0;
    assert(items@.subrange(0, n as int) =~= items@);
    while i < n
        invariant
            agents is Some,
            entries(*agents) == items@,
            n == items@.len(),
            i <= n,
            first_agent_name(items@, agent_id@) == first_agent_name(items@.subrange(i as int, n as int), agent_id@),
        decreases n - i,
    {
        let e = &items[i];
        assert(items@.subrange(i as int, n as int)[0] == items@[i as int]);
        assert(items@.subrange(i as int, n as int).drop_first() =~= items@.subrange(i + 1, n as int));
        if let Some(id) = &e.id {
            if str_eq(id.as_str(), agent_id) {
                if let Some(name) = &e.name {
                    return Some(owned(name.as_str()));
                }
            }
        }
        i = i + 1;
    }
    assert(items@.subrange(n as int, n as int) =~= Seq::<AgentEntry>::empty());
    None
}

} // verus!
