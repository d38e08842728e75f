use realty_api::catalog::{
    agent_pool_label, agent_pool_roles, category_db_error, position_db_error, role_type_db_error, check_category_deletable,
    check_position_deletable, check_rate_update, fixed_role, seed_categories, validate_category_update,
    validate_expense, validate_label, validate_new_category, validate_new_expense_category,
    validate_layout, validate_new_position_type, validate_new_project, validate_upline_role_rate,
    CreateEmployeePositionTypeInput, CreateExpenseCategoryInput, CreateProjectInput,
    UpdateEmployeePositionTypeInput,
};
use realty_api::commission::{
    check_schedule_deletable, commission_status_range, parse_optional_ymd, row_meta_subject_filter,
    validate_commission_status, validate_release_credit, validate_release_entry, validate_row_meta,
    validate_schedule_entry, validate_status_override, ListCommissionRowMetaQuery,
    ListCommissionStatusQuery, UpsertCommissionRowMetaInput,
};
use realty_api::company::{
    settings_split_months, validate_company_settings, validate_split_update, CompanySettings,
    CompanySettingsInput, UpdateAgentCommissionSplitInput,
};
use realty_api::contract::LotStatus;
use realty_api::dates::Date;
use realty_api::error::ApiError;
use realty_api::guards::{
    check_lot_reservable, check_requested_reserve_status, require_admin, require_agent,
    require_employee, require_lead_broker, require_titling_officer, require_upline_role,
    ReservePortal, ToReserveLotInput, UplineReserveLotInput,
};
use realty_api::legacy::{
    legacy_lot_status, legacy_next_due_date, validate_legacy_contract, validate_legacy_payment,
};
use realty_api::lots::{
    validate_area_rate, validate_block_lot, validate_lot_type, validate_lot_update,
    validate_new_lot, validate_status,
};
use realty_api::role_types::{
    check_portal_path, check_role_type_deletable, normalize_portal_path, validate_new_role_type,
    validate_portal_path, validate_role_type_update,
};
use realty_api::roster::{
    is_foreign_key_violation, is_unique_violation, roster_db_error, validate_roster_input,
};
use realty_api::salary::{
    employee_position, normalize_rest_days, plan_account_relink, plan_kind, position_listed,
    valid_status, validate_employee_update, validate_new_employee, validate_plan_update,
    validate_salary_plan, validate_salary_release, PlanKind,
};

fn d(year: i32, month: u32, day: u32) -> Date {
    Date { year, month, day }
}

#[test]
fn employee_statuses() {
    assert!(valid_status("Active"));
    assert!(valid_status("Inactive"));
    assert!(!valid_status("active"));
    assert!(!valid_status(""));
}

#[test]
fn rest_days_are_sorted_and_deduplicated() {
    assert_eq!(normalize_rest_days(None), Ok(vec![]));
    assert_eq!(normalize_rest_days(Some(vec![6, 0, 6, 3, 0])), Ok(vec![0, 3, 6]));
    assert_eq!(normalize_rest_days(Some(vec![7])), Err(ApiError::RestDaysOutOfRange));
    assert_eq!(normalize_rest_days(Some(vec![1, -1])), Err(ApiError::RestDaysOutOfRange));
}

#[test]
fn rest_days_depend_only_on_which_days() {
    assert_eq!(normalize_rest_days(Some(vec![5, 1, 1])), normalize_rest_days(Some(vec![1, 5])));
    let once = normalize_rest_days(Some(vec![4, 2, 2, 6])).unwrap();
    assert_eq!(normalize_rest_days(Some(once.clone())), Ok(once));
}

#[test]
fn employee_position_lookup() {
    let labels = vec!["Driver".to_string(), "Clerk".to_string()];
    assert!(position_listed(&labels, "Clerk"));
    assert!(!position_listed(&labels, "clerk"));
    assert_eq!(employee_position(Some("  Driver ")), Some("Driver"));
    assert_eq!(employee_position(Some("   ")), None);
    assert_eq!(employee_position(None), None);
}

#[test]
fn new_employee_checks_in_order() {
    let labels = vec!["Driver".to_string()];
    let ok = validate_new_employee(" Ana ", Some(" Driver "), None, Some(vec![0, 0]), &labels).unwrap();
    assert_eq!(ok.name, "Ana");
    assert_eq!(ok.position.as_deref(), Some("Driver"));
    assert_eq!(ok.status, "Active");
    assert_eq!(ok.rest_days, vec![0]);
    assert!(matches!(
        validate_new_employee("  ", Some("Pilot"), Some("x"), None, &labels),
        Err(ApiError::NameRequired)
    ));
    assert!(matches!(
        validate_new_employee("Ana", Some("Pilot"), Some("x"), None, &labels),
        Err(ApiError::InvalidEmployeePosition)
    ));
    assert!(matches!(
        validate_new_employee("Ana", Some(" "), Some("x"), None, &labels),
        Err(ApiError::EmployeeStatusInvalid)
    ));
    assert!(matches!(
        validate_new_employee("Ana", None, Some("Inactive"), Some(vec![9]), &labels),
        Err(ApiError::RestDaysOutOfRange)
    ));
}

#[test]
fn employee_update_checks_status_before_position() {
    let labels: Vec<String> = vec![];
    assert!(matches!(
        validate_employee_update("Ana", Some("Pilot"), "x", None, &labels),
        Err(ApiError::EmployeeStatusInvalid)
    ));
    assert!(matches!(
        validate_employee_update("Ana", Some("Pilot"), "Active", None, &labels),
        Err(ApiError::InvalidEmployeePosition)
    ));
    let ok = validate_employee_update("Ana", None, "Inactive", None, &labels).unwrap();
    assert_eq!(ok.status, "Inactive");
    assert_eq!(ok.position, None);
}

#[test]
fn relinking_an_employee_account() {
    let same = plan_account_relink(Some(7), Some(7));
    assert_eq!((same.check_roster, same.revert_role, same.grant_role), (None, None, None));
    let none = plan_account_relink(None, None);
    assert_eq!((none.check_roster, none.revert_role, none.grant_role), (None, None, None));
    let moved = plan_account_relink(Some(7), Some(8));
    assert_eq!((moved.check_roster, moved.revert_role, moved.grant_role), (Some(8), Some(7), Some(8)));
    let dropped = plan_account_relink(Some(7), None);
    assert_eq!((dropped.check_roster, dropped.revert_role, dropped.grant_role), (None, Some(7), None));
}

#[test]
fn training_plans() {
    let p = validate_salary_plan("training", "2024-01-01", Some("2024-03-31"), true, false, None).unwrap();
    assert_eq!(p.kind, PlanKind::Training);
    assert_eq!(p.start_date, d(2024, 1, 1));
    assert_eq!(p.end_date, Some(d(2024, 3, 31)));
    assert!(matches!(
        validate_salary_plan("training", "2024-01-01", None, true, true, None),
        Err(ApiError::PlanEndDateRequired)
    ));
    assert!(matches!(
        validate_salary_plan("training", "2024-01-01", Some("soon"), true, true, None),
        Err(ApiError::PlanEndDateFormat)
    ));
    assert!(matches!(
        validate_salary_plan("training", "2024-01-02", Some("2024-01-01"), true, true, None),
        Err(ApiError::PlanEndBeforeStart)
    ));
    assert!(matches!(
        validate_salary_plan("training", "2024-01-01", Some("2024-01-01"), false, true, None),
        Err(ApiError::TrainingFeeNotPositive)
    ));
}

#[test]
fn regular_plans() {
    let p = validate_salary_plan("regular", " 2024-02-01 ", None, false, true, Some("weekly")).unwrap();
    assert_eq!(p.kind, PlanKind::Regular);
    assert_eq!(p.end_date, None);
    assert_eq!(p.schedule_type.as_deref(), Some("weekly"));
    assert!(matches!(
        validate_salary_plan("regular", "2024-02-01", None, true, false, Some("weekly")),
        Err(ApiError::MonthlyAmountNotPositive)
    ));
    assert!(matches!(
        validate_salary_plan("regular", "2024-02-01", None, true, true, Some(" weekly")),
        Err(ApiError::InvalidScheduleType)
    ));
    assert!(matches!(
        validate_salary_plan("regular", "2024-02-01", None, true, true, None),
        Err(ApiError::InvalidScheduleType)
    ));
    assert!(matches!(
        validate_salary_plan("contract", "2024-02-01", None, true, true, None),
        Err(ApiError::InvalidPlanKind)
    ));
    assert!(matches!(
        validate_salary_plan("contract", "02/01/2024", None, true, true, None),
        Err(ApiError::PlanStartDateFormat)
    ));
}

#[test]
fn plan_amount_corrections() {
    assert_eq!(plan_kind("training"), Some(PlanKind::Training));
    assert_eq!(plan_kind("regular"), Some(PlanKind::Regular));
    assert_eq!(plan_kind("other"), None);
    assert_eq!(validate_plan_update(PlanKind::Training, true, false, None), Ok(None));
    assert_eq!(
        validate_plan_update(PlanKind::Training, false, true, None),
        Err(ApiError::TrainingFeeNotPositive)
    );
    assert_eq!(
        validate_plan_update(PlanKind::Regular, false, true, Some("monthly")),
        Ok(Some("monthly".to_string()))
    );
    assert_eq!(
        validate_plan_update(PlanKind::Regular, false, false, Some("monthly")),
        Err(ApiError::MonthlyAmountNotPositive)
    );
    assert_eq!(
        validate_plan_update(PlanKind::Regular, true, true, Some("daily")),
        Err(ApiError::InvalidScheduleType)
    );
}

#[test]
fn salary_release_entries() {
    let f = validate_salary_release(true, "2024-01-01", "2024-01-15", "2024-01-16", Some(" note ")).unwrap();
    assert_eq!((f.period_start, f.period_end, f.paid_at), (d(2024, 1, 1), d(2024, 1, 15), d(2024, 1, 16)));
    assert_eq!(f.note.as_deref(), Some("note"));
    assert!(validate_salary_release(true, "2024-01-01", "2024-01-01", "2024-01-16", Some(" ")).unwrap().note.is_none());
    assert!(matches!(validate_salary_release(false, "x", "y", "z", None), Err(ApiError::AmountNotPositive)));
    assert!(matches!(validate_salary_release(true, "x", "y", "z", None), Err(ApiError::PeriodStartFormat)));
    assert!(matches!(validate_salary_release(true, "2024-01-01", "y", "z", None), Err(ApiError::PeriodEndFormat)));
    assert!(matches!(
        validate_salary_release(true, "2024-01-02", "2024-01-01", "z", None),
        Err(ApiError::PeriodEndBeforeStart)
    ));
    assert!(matches!(
        validate_salary_release(true, "2024-01-01", "2024-01-02", "z", None),
        Err(ApiError::PaidAtFormat)
    ));
}

#[test]
fn portal_paths() {
    assert_eq!(validate_portal_path("broker2"), Ok(()));
    assert_eq!(validate_portal_path(""), Err(ApiError::PortalPathInvalid));
    assert_eq!(validate_portal_path("sales-team"), Err(ApiError::PortalPathInvalid));
    assert_eq!(validate_portal_path(&"a".repeat(40)), Ok(()));
    assert_eq!(validate_portal_path(&"a".repeat(41)), Err(ApiError::PortalPathInvalid));
    assert_eq!(check_portal_path("admin"), Err(ApiError::PortalPathReserved));
    assert_eq!(check_portal_path("profile"), Err(ApiError::PortalPathReserved));
    assert_eq!(normalize_portal_path("  Broker ").as_deref(), Ok("broker"));
    assert_eq!(normalize_portal_path(" AGENT "), Err(ApiError::PortalPathReserved));
    assert_eq!(normalize_portal_path("Über"), Err(ApiError::PortalPathInvalid));
}

#[test]
fn new_upline_role_types() {
    let f = validate_new_role_type("  Area Manager ", true, true, " AreaMgr ").unwrap();
    assert_eq!(f.label, "Area Manager");
    assert_eq!(f.slug, "area-manager");
    assert_eq!(f.portal_path, "areamgr");
    assert!(matches!(validate_new_role_type("  ", true, true, "x"), Err(ApiError::InvalidLabel)));
    assert!(matches!(validate_new_role_type(&"L".repeat(101), true, true, "x"), Err(ApiError::InvalidLabel)));
    assert!(matches!(validate_new_role_type("Admin", true, true, "x"), Err(ApiError::LabelReserved)));
    assert!(matches!(validate_new_role_type("Boss", false, true, "x"), Err(ApiError::BasePercentOutOfRange)));
    assert!(matches!(validate_new_role_type("Boss", true, false, "x"), Err(ApiError::DirectSalePoolOutOfRange)));
    assert!(matches!(validate_new_role_type("Boss", true, true, "buyer"), Err(ApiError::PortalPathReserved)));
    assert!(matches!(validate_new_role_type("***", true, true, "boss"), Err(ApiError::InvalidLabel)));
}

#[test]
fn upline_role_type_edits() {
    assert_eq!(validate_role_type_update(true, true, " Boss ").as_deref(), Ok("boss"));
    assert_eq!(validate_role_type_update(false, true, "boss"), Err(ApiError::BasePercentOutOfRange));
    assert_eq!(validate_role_type_update(true, true, "b o s s"), Err(ApiError::PortalPathInvalid));
    assert_eq!(check_role_type_deletable(true), Err(ApiError::RoleTypeInUse));
    assert_eq!(check_role_type_deletable(false), Ok(()));
}

#[test]
fn roster_entries() {
    assert_eq!(validate_roster_input("Agent", "A-1", None, true, "Active", Some(1), Some(2)), Ok(()));
    assert_eq!(validate_roster_input("Boss", "A-1", None, true, "Active", None, None), Err(ApiError::InvalidRole));
    assert_eq!(validate_roster_input("Agent", "  ", None, true, "Active", None, None), Err(ApiError::InvalidCode));
    assert_eq!(
        validate_roster_input("Agent", &"c".repeat(101), None, true, "Active", None, None),
        Err(ApiError::InvalidCode)
    );
    assert_eq!(
        validate_roster_input("Agent", "c", Some(&"p".repeat(101)), true, "Active", None, None),
        Err(ApiError::PrcLicenseTooLong)
    );
    assert_eq!(
        validate_roster_input("Agent", "c", Some("PRC-1"), false, "Active", None, None),
        Err(ApiError::CommissionRateOutOfRange)
    );
    assert_eq!(validate_roster_input("Agent", "c", None, true, "Gone", None, None), Err(ApiError::InvalidStatus));
    assert_eq!(
        validate_roster_input("Lead Broker", "c", None, true, "Active", Some(3), None),
        Err(ApiError::BrokerOnlyForAgent)
    );
    assert_eq!(
        validate_roster_input("Agent", "c", None, true, "Inactive", Some(3), Some(3)),
        Err(ApiError::SelfReporting)
    );
}

#[test]
fn roster_database_errors() {
    assert_eq!(roster_db_error(Some("23505"), Some("roster_user_id_unique")), ApiError::UserAlreadyOnRoster);
    assert_eq!(roster_db_error(Some("23505"), Some("roster_code_unique")), ApiError::RosterCodeTaken);
    assert_eq!(roster_db_error(Some("23505"), None), ApiError::RosterValueTaken);
    assert_eq!(roster_db_error(Some("23503"), None), ApiError::RosterReferenceMissing);
    assert_eq!(roster_db_error(None, None), ApiError::RosterSaveFailed);
    assert_eq!(ApiError::RosterSaveFailed.status(), 500);
    assert!(is_unique_violation(Some("23505")));
    assert!(!is_unique_violation(Some("23503")));
    assert!(is_foreign_key_violation(Some("23503")));
    assert!(!is_foreign_key_violation(None));
}

#[test]
fn lot_fields() {
    assert_eq!(validate_block_lot("B1", "L2"), Ok(()));
    assert_eq!(validate_block_lot(" ", "L2"), Err(ApiError::InvalidBlock));
    assert_eq!(validate_block_lot("B1", &"9".repeat(21)), Err(ApiError::InvalidLot));
    assert_eq!(validate_lot_type("Commercial / Corner"), Ok(()));
    assert_eq!(validate_lot_type("Corner Lot"), Err(ApiError::InvalidLotType));
    assert_eq!(validate_status("Hold"), Ok(()));
    assert_eq!(validate_status("Installment"), Err(ApiError::InvalidStatus));
    assert_eq!(validate_area_rate(false, false), Err(ApiError::InvalidArea));
    assert_eq!(validate_area_rate(true, false), Err(ApiError::InvalidRate));
    assert_eq!(validate_new_lot("B", "L", "Inner", true, true), Ok(()));
}

#[test]
fn lot_edits() {
    assert_eq!(validate_lot_update("B", "L", "Inner", true, true, "Sold", Some(" Ana ")), Ok(Some("Ana".to_string())));
    assert_eq!(validate_lot_update("B", "L", "Inner", true, true, "Sold", Some("  ")), Ok(None));
    assert_eq!(
        validate_lot_update("B", "L", "Inner", true, true, "Sold", Some(&"n".repeat(256))),
        Err(ApiError::OwnerBuyerTooLong)
    );
    assert_eq!(validate_lot_update("B", "L", "Inner", true, true, "Gone", None), Err(ApiError::InvalidStatus));
}

#[test]
fn company_settings_checks() {
    let good = CompanySettingsInput {
        company_name: "  Realty Co ".to_string(),
        office_address: "Main St".to_string(),
        currency: "PHP".to_string(),
        timezone: "Asia/Manila".to_string(),
        agent_commission_split_months: Some(24),
    };
    assert_eq!(validate_company_settings(&good), Ok("Realty Co"));
    let mut bad = CompanySettingsInput { company_name: " ".to_string(), ..good };
    assert_eq!(validate_company_settings(&bad), Err(ApiError::InvalidCompanyName));
    bad.company_name = "X".to_string();
    bad.office_address = "a".repeat(2001);
    assert_eq!(validate_company_settings(&bad), Err(ApiError::OfficeAddressTooLong));
    bad.office_address = String::new();
    bad.currency = "DOLLARSDOLLARS".to_string();
    assert_eq!(validate_company_settings(&bad), Err(ApiError::InvalidCurrency));
    bad.currency = "USD".to_string();
    bad.timezone = " ".to_string();
    assert_eq!(validate_company_settings(&bad), Err(ApiError::InvalidTimezone));
    bad.timezone = "UTC".to_string();
    bad.agent_commission_split_months = Some(121);
    assert_eq!(validate_company_settings(&bad), Err(ApiError::AgentSplitMonthsOutOfRange));
    bad.agent_commission_split_months = None;
    assert_eq!(validate_company_settings(&bad), Ok("X"));
}

#[test]
fn company_split_months() {
    assert_eq!(settings_split_months(Some(12), Some(30)), 12);
    assert_eq!(settings_split_months(None, Some(30)), 30);
    assert_eq!(settings_split_months(None, None), 15);
    assert_eq!(validate_split_update(&UpdateAgentCommissionSplitInput { agent_commission_split_months: 60 }), Ok(60));
    assert_eq!(
        validate_split_update(&UpdateAgentCommissionSplitInput { agent_commission_split_months: 0 }),
        Err(ApiError::AgentSplitMonthsOutOfRange)
    );
    let s = CompanySettings {
        company_name: "X".to_string(),
        office_address: String::new(),
        currency: "PHP".to_string(),
        timezone: "UTC".to_string(),
        agent_commission_split_months: 15,
        updated_at: 0,
    };
    assert_eq!(s.agent_commission_split_months, 15);
}

#[test]
fn catalog_labels_and_names() {
    assert_eq!(validate_label(" Clerk "), Ok("Clerk"));
    assert_eq!(validate_label(&"x".repeat(101)), Err(ApiError::InvalidLabel));
    let p = CreateEmployeePositionTypeInput { label: " Driver ".to_string() };
    assert_eq!(validate_new_position_type(&p), Ok("Driver"));
    let _move = UpdateEmployeePositionTypeInput { sort_order: 3 };
    assert_eq!(check_position_deletable(true), Err(ApiError::PositionInUse));
    assert_eq!(check_position_deletable(false), Ok(()));
    assert_eq!(validate_new_project(&CreateProjectInput { name: " Phase 1 ".to_string() }), Ok("Phase 1"));
    assert_eq!(validate_new_project(&CreateProjectInput { name: "".to_string() }), Err(ApiError::InvalidProjectName));
    assert_eq!(validate_new_expense_category(&CreateExpenseCategoryInput { name: " Fuel ".to_string() }), Ok("Fuel"));
    assert_eq!(
        validate_new_expense_category(&CreateExpenseCategoryInput { name: "  ".to_string() }),
        Err(ApiError::NameRequired)
    );
}

#[test]
fn expenses() {
    let e = validate_expense(" Shell ", true, "2024-05-01", Some("  ")).unwrap();
    assert_eq!(e.paid_to, "Shell");
    assert_eq!(e.paid_at, d(2024, 5, 1));
    assert_eq!(e.description, None);
    assert!(matches!(validate_expense(" ", true, "2024-05-01", None), Err(ApiError::PaidToRequired)));
    assert!(matches!(validate_expense("Shell", false, "2024-05-01", None), Err(ApiError::AmountNotPositive)));
    assert!(matches!(validate_expense("Shell", true, "May 1", None), Err(ApiError::PaidAtFormat)));
}

#[test]
fn rate_categories() {
    assert_eq!(validate_new_category(" DCF ", true), Ok("DCF"));
    assert_eq!(validate_new_category("DCF", false), Err(ApiError::PercentOutOfRange));
    assert_eq!(
        validate_category_update("Pool", true, "Agent Commission", true, false),
        Err(ApiError::CannotRenameAgentPool)
    );
    assert_eq!(
        validate_category_update(" Agent Commission ", true, "Agent Commission", true, true),
        Err(ApiError::AgentPoolBelowUplines)
    );
    assert_eq!(validate_category_update("Pool", true, "Old", false, true), Ok("Pool"));
    assert_eq!(check_category_deletable(true), Err(ApiError::CannotDeleteAgentPool));
    assert_eq!(category_db_error(true), ApiError::CategoryLabelTaken);
    assert_eq!(category_db_error(false), ApiError::CategorySaveFailed);
    assert_eq!(validate_upline_role_rate(true, true, true), Err(ApiError::UplineRatesExceedPool));
    assert_eq!(validate_upline_role_rate(true, false, true), Err(ApiError::DirectSalePoolOutOfRange));
    assert_eq!(validate_upline_role_rate(true, true, false), Ok(()));
}

#[test]
fn rate_seeding_plan() {
    let seeds = seed_categories();
    let labels: Vec<&str> = seeds.iter().map(|s| s.label).collect();
    assert_eq!(labels, vec!["Legal Counsel", "Land Owner", "Hypomone", "Project Dev & Processing"]);
    let percents: Vec<u32> = seeds.iter().map(|s| s.default_percent).collect();
    assert_eq!(percents, vec![5, 40, 25, 10]);
    assert_eq!(agent_pool_label(), "Agent Commission");
    assert_eq!(agent_pool_roles(), vec!["Lead Broker", "Titling Officer", "Agent"]);
    assert!(fixed_role("Hypomone"));
    assert!(!fixed_role("Lead Broker"));
    assert_eq!(check_rate_update(false, true), Err(ApiError::UnknownRole));
    assert_eq!(check_rate_update(true, false), Err(ApiError::CommissionRateOutOfRange));
    assert_eq!(check_rate_update(true, true), Ok(()));
}

#[test]
fn commission_status_filters() {
    let q = ListCommissionStatusQuery { from: Some("2024-01-01".to_string()), to: None };
    assert_eq!(commission_status_range(&q), Ok((Some(d(2024, 1, 1)), None)));
    let q = ListCommissionStatusQuery { from: Some("".to_string()), to: None };
    assert_eq!(commission_status_range(&q), Err(ApiError::FromDateFormat));
    let q = ListCommissionStatusQuery { from: None, to: Some("bad".to_string()) };
    assert_eq!(commission_status_range(&q), Err(ApiError::ToDateFormat));
    assert_eq!(parse_optional_ymd(Some("  "), ApiError::FromDateFormat), Ok(None));
    assert_eq!(parse_optional_ymd(None, ApiError::FromDateFormat), Ok(None));
    assert_eq!(parse_optional_ymd(Some("2024-02-30"), ApiError::ToDateFormat), Err(ApiError::ToDateFormat));
    assert_eq!(parse_optional_ymd(Some(" 2024-02-29"), ApiError::ToDateFormat), Ok(Some(d(2024, 2, 29))));
}

#[test]
fn commission_period_statuses() {
    let today = d(2024, 7, 1);
    let f = validate_commission_status(" A1 ", "partial", "2024-06-01", "2024-06-15", true, None, today).unwrap();
    assert_eq!(f.subject, "A1");
    assert_eq!(f.partial_paid_at, Some(today));
    let f = validate_commission_status("A1", "partial", "2024-06-01", "2024-06-15", true, Some("2024-06-20"), today).unwrap();
    assert_eq!(f.partial_paid_at, Some(d(2024, 6, 20)));
    let f = validate_commission_status("A1", "paid", "2024-06-01", "2024-06-15", false, Some("junk"), today).unwrap();
    assert_eq!(f.partial_paid_at, None);
    let bad = |subject: &str, status: &str, start: &str, end: &str, ok: bool, paid: Option<&str>| {
        validate_commission_status(subject, status, start, end, ok, paid, today).err()
    };
    assert_eq!(bad(" ", "paid", "", "", true, None), Some(ApiError::SubjectRequired));
    assert_eq!(bad("A", "done", "", "", true, None), Some(ApiError::InvalidCommissionStatus));
    assert_eq!(bad("A", "paid", "x", "", true, None), Some(ApiError::PeriodStartFormat));
    assert_eq!(bad("A", "paid", "2024-06-01", "x", true, None), Some(ApiError::PeriodEndFormat));
    assert_eq!(bad("A", "paid", "2024-06-02", "2024-06-01", true, None), Some(ApiError::PeriodEndBeforeStart));
    assert_eq!(bad("A", "partial", "2024-06-01", "2024-06-15", false, None), Some(ApiError::PartialAmountInvalid));
    assert_eq!(bad("A", "partial", "2024-06-01", "2024-06-15", true, Some("x")), Some(ApiError::PartialPaidAtFormat));
}

#[test]
fn commission_row_flags() {
    let input = UpsertCommissionRowMetaInput {
        subject_agent_id: " A1 ".to_string(),
        row_key: " r1 ".to_string(),
        period_start: "2024-06-16".to_string(),
        other_flag: "half".to_string(),
    };
    let f = validate_row_meta(&input).unwrap();
    assert_eq!((f.subject.as_str(), f.row_key.as_str(), f.period_start), ("A1", "r1", d(2024, 6, 16)));
    let missing = UpsertCommissionRowMetaInput { row_key: " ".to_string(), ..input };
    assert!(matches!(validate_row_meta(&missing), Err(ApiError::RowMetaKeysRequired)));
    let flag = UpsertCommissionRowMetaInput {
        subject_agent_id: "A".to_string(),
        row_key: "r".to_string(),
        period_start: "2024-06-16".to_string(),
        other_flag: "some".to_string(),
    };
    assert!(matches!(validate_row_meta(&flag), Err(ApiError::InvalidOtherFlag)));
    let date = UpsertCommissionRowMetaInput { other_flag: "none".to_string(), period_start: "x".to_string(), ..flag };
    assert!(matches!(validate_row_meta(&date), Err(ApiError::PeriodStartFormat)));
    let q = ListCommissionRowMetaQuery { subject_agent_id: Some("  ".to_string()) };
    assert_eq!(row_meta_subject_filter(&q), None);
    let q = ListCommissionRowMetaQuery { subject_agent_id: Some(" A9 ".to_string()) };
    assert_eq!(row_meta_subject_filter(&q), Some("A9"));
}

#[test]
fn installment_overrides() {
    assert_eq!(validate_status_override("", 0), Ok(()));
    assert_eq!(validate_status_override("Hold", 11), Ok(()));
    assert_eq!(validate_status_override("paid", 1), Err(ApiError::InvalidOverrideStatus));
    assert_eq!(validate_status_override("Paid", 12), Err(ApiError::OverrideMonthOutOfRange));
    assert_eq!(validate_status_override("Half", -1), Err(ApiError::OverrideMonthOutOfRange));
}

#[test]
fn commission_release_entries() {
    let f = validate_release_entry(" A ", true, "2024-02-16", "2024-02-29", "2024-03-01").unwrap();
    assert_eq!((f.period_start, f.period_end, f.paid_at), (d(2024, 2, 16), d(2024, 2, 29), d(2024, 3, 1)));
    assert!(matches!(validate_release_entry("", true, "", "", ""), Err(ApiError::SubjectRequired)));
    assert!(matches!(validate_release_entry("A", false, "", "", ""), Err(ApiError::AmountNotPositive)));
    assert!(matches!(
        validate_release_entry("A", true, "2024-02-02", "2024-02-15", "2024-03-01"),
        Err(ApiError::PeriodStartNotBoundary)
    ));
    assert!(matches!(
        validate_release_entry("A", true, "2024-02-01", "2024-02-14", "2024-03-01"),
        Err(ApiError::PeriodEndNotBoundary)
    ));
    assert!(matches!(
        validate_release_entry("A", true, "2024-02-16", "2024-02-01", "2024-03-01"),
        Err(ApiError::PeriodEndBeforeStart)
    ));
    assert!(matches!(
        validate_release_entry("A", true, "2024-02-01", "2024-02-15", "soon"),
        Err(ApiError::PaidAtFormat)
    ));
}

#[test]
fn commission_release_credits() {
    let f = validate_release_credit("A", true, "2024-03-01", Some(" bonus ")).unwrap();
    assert_eq!(f.note.as_deref(), Some("bonus"));
    assert_eq!(f.paid_at, d(2024, 3, 1));
    assert!(matches!(validate_release_credit(" ", true, "", None), Err(ApiError::SubjectRequired)));
    assert!(matches!(validate_release_credit("A", false, "", None), Err(ApiError::AmountNotPositive)));
    assert!(matches!(validate_release_credit("A", true, "", None), Err(ApiError::PaidAtFormat)));
}

#[test]
fn split_schedule_entries() {
    assert_eq!(validate_schedule_entry(36), Ok(()));
    assert_eq!(validate_schedule_entry(0), Err(ApiError::SplitMonthsOutOfRange));
    assert_eq!(check_schedule_deletable(1), Err(ApiError::LastScheduleEntry));
    assert_eq!(check_schedule_deletable(2), Ok(()));
}

#[test]
fn role_guards() {
    assert_eq!(require_admin("Admin"), Ok(()));
    assert_eq!(require_admin("admin"), Err(ApiError::AdminRequired));
    assert_eq!(require_agent("Agent"), Ok(()));
    assert_eq!(require_agent("User"), Err(ApiError::AgentRequired));
    assert_eq!(require_lead_broker("Lead Broker"), Ok(()));
    assert_eq!(require_lead_broker("Agent"), Err(ApiError::LeadBrokerRequired));
    assert_eq!(require_employee("Employee"), Ok(()));
    assert_eq!(require_employee("Agent"), Err(ApiError::EmployeeRequired));
    assert_eq!(require_titling_officer("Titling Officer"), Ok(()));
    assert_eq!(require_titling_officer("Agent"), Err(ApiError::TitlingOfficerRequired));
    assert_eq!(require_upline_role(Some("Area Manager"), "Area Manager"), Ok(()));
    assert_eq!(require_upline_role(Some("Area Manager"), "Agent"), Err(ApiError::UplinePortalForbidden));
    assert_eq!(require_upline_role(None, "Agent"), Err(ApiError::UnknownUplineRole));
    assert_eq!(ApiError::AdminRequired.status(), 403);
    assert_eq!(ApiError::UnknownUplineRole.status(), 404);
}

#[test]
fn lot_reservations_from_portals() {
    assert_eq!(check_requested_reserve_status(ReservePortal::Upline, "Reserved"), Ok(LotStatus::Reserved));
    assert_eq!(check_requested_reserve_status(ReservePortal::TitlingOfficer, "Available"), Ok(LotStatus::Available));
    assert_eq!(check_requested_reserve_status(ReservePortal::Upline, "Sold"), Err(ApiError::UplineReserveStatus));
    assert_eq!(
        check_requested_reserve_status(ReservePortal::TitlingOfficer, "Hold"),
        Err(ApiError::TitlingReserveStatus)
    );
    assert_eq!(check_lot_reservable("Hold", LotStatus::Reserved), Ok(true));
    assert_eq!(check_lot_reservable("Reserved", LotStatus::Available), Ok(false));
    assert_eq!(check_lot_reservable("Sold", LotStatus::Reserved), Err(ApiError::LotNotReservable));
    let to = ToReserveLotInput { status: "Reserved".to_string(), reserved_until: Some(1), reserve_agent_id: None, reserve_notes: None };
    let up = UplineReserveLotInput { status: "Available".to_string(), reserved_until: None, reserve_agent_id: None, reserve_notes: None };
    assert_eq!(check_requested_reserve_status(ReservePortal::TitlingOfficer, &to.status), Ok(LotStatus::Reserved));
    assert_eq!(check_requested_reserve_status(ReservePortal::Upline, &up.status), Ok(LotStatus::Available));
}

#[test]
fn older_contract_endpoints() {
    assert_eq!(validate_legacy_contract("Ana", "B", "L", "full", false, 5), Ok(()));
    assert_eq!(validate_legacy_contract(" ", "B", "L", "full", false, 5), Err(ApiError::InvalidBuyerName));
    assert_eq!(validate_legacy_contract("Ana", "B", " ", "full", false, 5), Err(ApiError::BlockAndLotRequired));
    assert_eq!(validate_legacy_contract("Ana", "B", "L", "x", false, 5), Err(ApiError::InvalidPaymentPlan));
    assert_eq!(validate_legacy_contract("Ana", "B", "L", "half", true, 5), Err(ApiError::NegativeNumericField));
    assert_eq!(validate_legacy_contract("Ana", "B", "L", "half", false, 0), Err(ApiError::DueDayOutOfRange));
    assert_eq!(validate_legacy_payment("card", true, 0), Ok(()));
    assert_eq!(validate_legacy_payment("bank", true, 0), Err(ApiError::InvalidPaymentMethod));
    assert_eq!(validate_legacy_payment("cash", false, 0), Err(ApiError::PaymentAmountNotPositive));
    assert_eq!(validate_legacy_payment("cash", true, -2), Err(ApiError::MonthsCoveredNegative));
    assert_eq!(legacy_next_due_date(d(2024, 1, 31), 0), d(2024, 2, 29));
    assert_eq!(legacy_next_due_date(d(2024, 1, 31), 3), d(2024, 4, 30));
    assert_eq!(legacy_lot_status(false, "half"), LotStatus::Reserved);
    assert_eq!(legacy_lot_status(true, "half"), LotStatus::Sold);
}

#[test]
fn subdivision_layouts() {
    assert_eq!(validate_layout(5, 5, 1, true, true), Ok(()));
    assert_eq!(validate_layout(5, 6, 2, false, false), Err(ApiError::LayoutProjectMismatch));
    assert_eq!(validate_layout(5, 5, 2, false, false), Err(ApiError::LayoutVersion));
    assert_eq!(validate_layout(5, 5, 1, false, false), Err(ApiError::LayoutBlocksNotArray));
    assert_eq!(validate_layout(5, 5, 1, true, false), Err(ApiError::LayoutSizeInvalid));
    assert_eq!(ApiError::InvalidStoredLayout.status(), 500);
}

#[test]
fn save_failures_map_to_their_refusals() {
    assert_eq!(position_db_error(true), ApiError::PositionExists);
    assert_eq!(position_db_error(false).status(), 500);
    assert_eq!(role_type_db_error(true).message(), "That label or portal path already exists");
    assert_eq!(role_type_db_error(false), ApiError::RoleTypeSaveFailed);
    assert_eq!(realty_api::salary::employee_db_error(true).status(), 409);
    assert_eq!(realty_api::salary::employee_db_error(false), ApiError::EmployeeSaveFailed);
}
