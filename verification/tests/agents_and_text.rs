use realty_api::agents::{
    agent_name_from_json, resolve_to_subject_id, root_id_from_agents, root_roster_ids_from_agents,
    titling_officer_id_from_agents, validate_agents_json, AgentEntry,
};
use realty_api::downline::{collect_direct_and_downline_seller_ids, legacy_root_column};
use realty_api::error::ApiError;
use realty_api::pagination::{Page, PageQuery};
use realty_api::slug::slugify;
use realty_api::sorted::sorted_unique;
use realty_api::text::{blank, byte_len, non_blank, owned, str_eq};

fn agent(id: &str, name: &str, role: &str, parent: Option<&str>) -> AgentEntry {
    AgentEntry {
        is_object: true,
        id: Some(id.to_string()),
        name: Some(name.to_string()),
        role: Some(role.to_string()),
        parent_id: parent.map(|p| p.to_string()),
    }
}

const LB: &str = "67e55044-10b1-426f-9247-bb680e5fe0c8";
const TO: &str = "00000000-0000-0000-0000-00000000002a";

fn team() -> Option<Vec<AgentEntry>> {
    Some(vec![
        agent(LB, "Lea", "lead-broker", None),
        agent("a1", "Ann", "agent", Some(LB)),
        agent("a2", "Ben", "agent", Some("a1")),
        agent("x9", "Xia", "agent", Some("elsewhere")),
        agent(TO, "Tom", "titling-officer", None),
    ])
}

#[test]
fn agents_list_must_be_well_formed() {
    assert_eq!(validate_agents_json(&team()), Ok(()));
    assert_eq!(validate_agents_json(&Some(vec![])), Ok(()));
    assert_eq!(validate_agents_json(&None), Err(ApiError::AgentsNotArray));
    let mut not_object = agent("a", "b", "c", None);
    not_object.is_object = false;
    assert_eq!(validate_agents_json(&Some(vec![not_object])), Err(ApiError::AgentNotObject));
    assert_eq!(validate_agents_json(&Some(vec![agent("", "b", "c", None)])), Err(ApiError::AgentIdRequired));
    let mut no_name = agent("a", "b", "c", None);
    no_name.name = None;
    assert_eq!(validate_agents_json(&Some(vec![no_name])), Err(ApiError::AgentNameRequired));
    assert_eq!(validate_agents_json(&Some(vec![agent("a", "b", "", None)])), Err(ApiError::AgentRoleRequired));
}

#[test]
fn root_roster_ids_read_the_first_roots() {
    let (lb, to) = root_roster_ids_from_agents(&team());
    assert_eq!(lb, Some(0x67e5504410b1426f9247bb680e5fe0c8));
    assert_eq!(to, Some(42));
    assert_eq!(root_roster_ids_from_agents(&None), (None, None));
    let bad = Some(vec![agent("not-a-uuid", "n", "lead-broker", None), agent(LB, "n", "lead-broker", None)]);
    // An entry whose id is not a uuid leaves the root open for a later entry.
    assert_eq!(root_roster_ids_from_agents(&bad), (Some(0x67e5504410b1426f9247bb680e5fe0c8), None));
}

#[test]
fn root_ids_and_names() {
    assert_eq!(root_id_from_agents(&team(), "lead-broker"), Some(LB.to_string()));
    assert_eq!(root_id_from_agents(&team(), "area-manager"), None);
    assert_eq!(titling_officer_id_from_agents(&team()), Some(TO.to_string()));
    assert_eq!(resolve_to_subject_id(&Some(vec![]), Some(5)), Some("00000000-0000-0000-0000-000000000005".to_string()));
    assert_eq!(resolve_to_subject_id(&team(), Some(5)), Some(TO.to_string()));
    assert_eq!(resolve_to_subject_id(&None, None), None);
    assert_eq!(agent_name_from_json(&team(), "a2"), Some("Ben".to_string()));
    assert_eq!(agent_name_from_json(&team(), "zz"), None);
}

#[test]
fn downline_collects_the_whole_tree() {
    let mut ids = collect_direct_and_downline_seller_ids(&team(), "lead-broker", None);
    ids.sort();
    let mut expected = vec![LB.to_string(), "a1".to_string(), "a2".to_string()];
    expected.sort();
    assert_eq!(ids, expected);
}

#[test]
fn downline_falls_back_to_the_stored_root() {
    let ids = collect_direct_and_downline_seller_ids(&Some(vec![agent("c", "C", "agent", Some("r"))]), "area-manager", Some("r"));
    let mut ids = ids;
    ids.sort();
    assert_eq!(ids, vec!["c".to_string(), "r".to_string()]);
    assert!(collect_direct_and_downline_seller_ids(&team(), "area-manager", None).is_empty());
}

#[test]
fn downline_survives_cycles() {
    let looped = Some(vec![
        agent("r", "R", "area-manager", Some("b")),
        agent("a", "A", "agent", Some("r")),
        agent("b", "B", "agent", Some("a")),
    ]);
    let mut ids = collect_direct_and_downline_seller_ids(&looped, "area-manager", None);
    ids.sort();
    assert_eq!(ids, vec!["a".to_string(), "b".to_string(), "r".to_string()]);
}

#[test]
fn legacy_root_columns() {
    assert_eq!(legacy_root_column("lead-broker"), Some("lead_broker_roster_id"));
    assert_eq!(legacy_root_column("titling-officer"), Some("titling_officer_roster_id"));
    assert_eq!(legacy_root_column("area-manager"), None);
}

#[test]
fn pagination_defaults_and_bounds() {
    let q = PageQuery { page: None, per_page: None };
    assert_eq!((q.page(), q.per_page(), q.offset()), (1, 50, 0));
    let q = PageQuery { page: Some(3), per_page: Some(500) };
    assert_eq!((q.page(), q.per_page(), q.offset()), (3, 200, 400));
    let q = PageQuery { page: Some(-4), per_page: Some(0) };
    assert_eq!((q.page(), q.per_page(), q.offset()), (1, 1, 0));
}

#[test]
fn page_counts() {
    let q = PageQuery { page: Some(2), per_page: Some(10) };
    let p: Page<u8> = Page::new(vec![1, 2, 3], &q, 23);
    assert_eq!((p.page, p.per_page, p.total, p.total_pages, p.has_more), (2, 10, 23, 3, true));
    let p: Page<u8> = Page::new(vec![], &PageQuery { page: Some(3), per_page: Some(10) }, 23);
    assert!(!p.has_more);
    let p: Page<u8> = Page::new(vec![], &PageQuery { page: None, per_page: None }, 0);
    // An empty list still has one (empty) page.
    assert_eq!((p.total_pages, p.has_more), (1, false));
}

#[test]
fn slugs() {
    assert_eq!(slugify("  Area Manager  "), "area-manager");
    assert_eq!(slugify("Lead -- Broker!!"), "lead-broker");
    assert_eq!(slugify("***"), "");
    assert_eq!(slugify("Über Team"), "ber-team");
    assert_eq!(slugify(&slugify("Sales & Marketing 2")), slugify("Sales & Marketing 2"));
}

#[test]
fn uuids_round_trip() {
    let upper = "67E55044-10B1-426F-9247-BB680E5FE0C8";
    let agents = Some(vec![agent(upper, "Lee", "lead-broker", None), agent("nope", "Tess", "titling-officer", None)]);
    let (lb, to) = root_roster_ids_from_agents(&agents);
    assert_eq!(lb, Some(0x67e55044_10b1_426f_9247_bb680e5fe0c8));
    assert_eq!(to, None);
    assert_eq!(resolve_to_subject_id(&Some(vec![]), lb).as_deref(), Some(LB));
    assert_eq!(resolve_to_subject_id(&None, Some(42)).as_deref(), Some(TO));
}

#[test]
fn text_helpers() {
    assert_eq!(non_blank(Some("\t hi \n")), Some("hi"));
    assert_eq!(non_blank(Some("\u{3000}x\u{a0}")), Some("x"));
    assert!(blank("  \n"));
    assert!(!blank(" a "));
    assert_eq!(byte_len("ñ"), 2);
    assert!(str_eq("abc", "abc"));
    assert!(!str_eq("abc", "abd"));
    assert_eq!(non_blank(Some("  x ")), Some("x"));
    assert_eq!(non_blank(Some("   ")), None);
    assert_eq!(owned("s"), "s".to_string());
    assert_eq!(slugify("añz"), "a-z");
    assert_eq!(slugify(" x1 y2 "), "x1-y2");
}

#[test]
fn sorted_unique_ids() {
    assert_eq!(sorted_unique(&vec![3, 1, 3, 2, 1]), vec![1, 2, 3]);
    assert_eq!(sorted_unique(&vec![]), Vec::<u128>::new());
    assert_eq!(sorted_unique(&vec![u128::MAX, 0]), vec![0, u128::MAX]);
}
