use realty_api::contract::{
    check_bulk_delete_found, check_buyer_account, contract_status, default_opening_method,
    default_split_months, edit_schedule_anchor, format_buyer_name, lot_status_for_contract,
    normalize_payment_fields, payment_method_known, payment_plan_known, payment_schedule_anchor,
    prepare_bulk_delete, prepare_opening_payment, require_name_parts, resolve_buyer_names,
    schedule_total_months, validate_contract_input, validate_payment_update,
    validate_record_payment, ContractChecks, ContractStatus, LotStatus, PaymentMeta,
    ResolvedBuyerNames,
};
use realty_api::dates::Date;
use realty_api::error::ApiError;

fn d(year: i32, month: u32, day: u32) -> Date {
    Date { year, month, day }
}

fn fields(m: &PaymentMeta) -> [&str; 5] {
    [
        m.reference_no.as_str(),
        m.bank_name.as_str(),
        m.sender_name.as_str(),
        m.receiver_name.as_str(),
        m.mode_label.as_str(),
    ]
}

#[test]
fn defaults_of_a_contract_request() {
    assert_eq!(default_split_months(), 36);
    assert_eq!(default_opening_method(), "cash");
}

#[test]
fn known_plans_and_methods() {
    for p in ["installment", "half", "full"] {
        assert!(payment_plan_known(p));
    }
    assert!(!payment_plan_known("Full"));
    for m in ["cash", "gcash", "maya", "bank", "others"] {
        assert!(payment_method_known(m));
    }
    assert!(!payment_method_known("card"));
}

#[test]
fn cash_payment_keeps_no_details() {
    let m = normalize_payment_fields("cash", " R1 ", "BPI", "Ann", "Ben", "x").unwrap();
    assert_eq!(fields(&m), ["", "", "", "", ""]);
}

#[test]
fn wallet_payment_keeps_reference_and_parties() {
    let m = normalize_payment_fields("gcash", " R1 ", "BPI", " Ann ", "Ben ", "x").unwrap();
    assert_eq!(fields(&m), ["R1", "", "Ann", "Ben", ""]);
    let m = normalize_payment_fields("maya", "R2", "", "", "", "").unwrap();
    assert_eq!(fields(&m), ["R2", "", "", "", ""]);
    assert!(matches!(
        normalize_payment_fields("gcash", "  ", "", "Ann", "", ""),
        Err(ApiError::ReferenceOrTransactionRequired)
    ));
}

#[test]
fn bank_payment_needs_bank_then_reference() {
    let m = normalize_payment_fields("bank", " 123 ", " BDO ", "Ann", "Ben", "x").unwrap();
    assert_eq!(fields(&m), ["123", "BDO", "", "", ""]);
    assert!(matches!(
        normalize_payment_fields("bank", "", "", "", "", ""),
        Err(ApiError::BankNameRequired)
    ));
    assert!(matches!(
        normalize_payment_fields("bank", " ", "BDO", "", "", ""),
        Err(ApiError::ReferenceNumberRequired)
    ));
}

#[test]
fn other_payment_needs_a_label() {
    let m = normalize_payment_fields("others", " ref ", "BDO", "Ann", "Ben", " Check ").unwrap();
    assert_eq!(fields(&m), ["ref", "", "", "", "Check"]);
    assert!(matches!(
        normalize_payment_fields("others", "", "", "", "", " "),
        Err(ApiError::PaymentLabelRequired)
    ));
    assert!(matches!(
        normalize_payment_fields("card", "", "", "", "", ""),
        Err(ApiError::InvalidPaymentMethod)
    ));
}

#[test]
fn normalizing_twice_changes_nothing() {
    let first = normalize_payment_fields("gcash", "  R9 ", "x", " Ann", "Ben  ", "y").unwrap();
    let again = normalize_payment_fields(
        "gcash",
        &first.reference_no,
        &first.bank_name,
        &first.sender_name,
        &first.receiver_name,
        &first.mode_label,
    )
    .unwrap();
    assert_eq!(fields(&first), fields(&again));
}

#[test]
fn recording_a_payment_checks_in_order() {
    assert!(matches!(
        validate_record_payment("card", true, 1, "", "", "", "", ""),
        Err(ApiError::InvalidPaymentMethod)
    ));
    assert!(matches!(
        validate_record_payment("cash", false, 1, "", "", "", "", ""),
        Err(ApiError::PaymentAmountNotPositive)
    ));
    assert!(matches!(
        validate_record_payment("cash", true, -1, "", "", "", "", ""),
        Err(ApiError::MonthsCoveredNegative)
    ));
    assert!(matches!(
        validate_record_payment("bank", true, 0, "1", "", "", "", ""),
        Err(ApiError::BankNameRequired)
    ));
    assert!(validate_record_payment("cash", true, 0, "", "", "", "", "").is_ok());
}

#[test]
fn correcting_a_payment_checks_in_order() {
    assert!(matches!(
        validate_payment_update("wire", true, "", "", "", "", ""),
        Err(ApiError::InvalidPaymentMethod)
    ));
    assert!(matches!(
        validate_payment_update("maya", false, "", "", "", "", ""),
        Err(ApiError::PaymentAmountNotPositive)
    ));
    let m = validate_payment_update("maya", true, "X", "", "", "", "").unwrap();
    assert_eq!(m.reference_no, "X");
}

#[test]
fn opening_payment_defaults_to_cash() {
    let (method, meta) = prepare_opening_payment("  ", "r", "b", "s", "c", "l").unwrap();
    assert_eq!(method, "cash");
    assert_eq!(fields(&meta), ["", "", "", "", ""]);
    let (method, meta) = prepare_opening_payment(" bank ", " 7 ", " BPI ", "", "", "").unwrap();
    assert_eq!(method, "bank");
    assert_eq!(fields(&meta), ["7", "BPI", "", "", ""]);
    assert!(matches!(
        prepare_opening_payment("card", "", "", "", "", ""),
        Err(ApiError::InvalidPaymentMethod)
    ));
    assert!(matches!(
        prepare_opening_payment("others", "", "", "", "", ""),
        Err(ApiError::PaymentLabelRequired)
    ));
}

#[test]
fn buyer_name_formats() {
    assert_eq!(format_buyer_name(" Dela Cruz ", " Juan ", ""), "Dela Cruz, Juan");
    assert_eq!(format_buyer_name("Dela Cruz", "Juan", " Santos "), "Dela Cruz, Juan Santos");
    assert_eq!(format_buyer_name("A", "B", "   "), "A, B");
}

#[test]
fn buyer_names_from_parts() {
    match resolve_buyer_names("ignored", " Reyes ", " Ana ", " M ").unwrap() {
        ResolvedBuyerNames::FromParts { buyer_name, last, first, middle } => {
            assert_eq!(buyer_name, "Reyes, Ana M");
            assert_eq!((last.as_str(), first.as_str(), middle.as_str()), ("Reyes", "Ana", "M"));
            // The stored display name is what the stored parts format to.
            assert_eq!(format_buyer_name(&last, &first, &middle), buyer_name);
        }
        ResolvedBuyerNames::Legacy { .. } => panic!("expected name parts"),
    }
}

#[test]
fn buyer_names_legacy_and_errors() {
    match resolve_buyer_names("  Old Name ", "", " ", "").unwrap() {
        ResolvedBuyerNames::Legacy { buyer_name } => assert_eq!(buyer_name, "Old Name"),
        ResolvedBuyerNames::FromParts { .. } => panic!("expected a legacy name"),
    }
    assert!(matches!(resolve_buyer_names("", "", "", ""), Err(ApiError::InvalidBuyerName)));
    assert!(matches!(
        resolve_buyer_names("x", "Reyes", "", ""),
        Err(ApiError::BuyerNamePartsRequired)
    ));
    assert!(matches!(
        resolve_buyer_names("x", "", "", "M"),
        Err(ApiError::BuyerNamePartsRequired)
    ));
    let long = "a".repeat(256);
    assert!(matches!(
        resolve_buyer_names("x", &long, "Ana", ""),
        Err(ApiError::InvalidBuyerName)
    ));
    assert!(matches!(resolve_buyer_names(&long, "", "", ""), Err(ApiError::InvalidBuyerName)));
    let max = "a".repeat(255);
    assert!(resolve_buyer_names(&max, "", "", "").is_ok());
    // Bytes count, not characters: 128 two-byte characters are 256 bytes.
    let wide = "ñ".repeat(128);
    assert!(matches!(resolve_buyer_names(&wide, "", "", ""), Err(ApiError::InvalidBuyerName)));
}

#[test]
fn new_contracts_need_name_parts() {
    let legacy = resolve_buyer_names("Old", "", "", "").unwrap();
    assert!(matches!(require_name_parts(legacy), Err(ApiError::BuyerNamePartsRequired)));
    let parts = resolve_buyer_names("", "L", "F", "").unwrap();
    let kept = require_name_parts(parts).unwrap();
    assert_eq!(kept.display_name(), "L, F");
}

fn checks() -> ContractChecks {
    ContractChecks {
        has_buyer_account: true,
        any_amount_negative: false,
        due_day: 15,
        split_months: 36,
        first_installment_positive: None,
        term_months: 0,
        term_years: 5,
    }
}

#[test]
fn contract_input_accepts_a_complete_request() {
    assert_eq!(validate_contract_input("", "L", "F", "", "1", "2", "installment", &checks()), Ok(()));
}

#[test]
fn contract_input_checks_in_order() {
    let c = checks();
    assert_eq!(
        validate_contract_input("", "", "", "", "1", "2", "installment", &c),
        Err(ApiError::InvalidBuyerName)
    );
    let mut no_account = checks();
    no_account.has_buyer_account = false;
    assert_eq!(
        validate_contract_input("", "L", "F", "", " ", "2", "bogus", &no_account),
        Err(ApiError::BuyerAccountRequired)
    );
    assert_eq!(
        validate_contract_input("", "L", "F", "", " ", "2", "installment", &c),
        Err(ApiError::BlockAndLotRequired)
    );
    assert_eq!(
        validate_contract_input("", "L", "F", "", "1", "2", "monthly", &c),
        Err(ApiError::InvalidPaymentPlan)
    );
    let mut negative = checks();
    negative.any_amount_negative = true;
    assert_eq!(
        validate_contract_input("", "L", "F", "", "1", "2", "full", &negative),
        Err(ApiError::NegativeNumericField)
    );
    let mut bad_day = checks();
    bad_day.due_day = 32;
    assert_eq!(
        validate_contract_input("", "L", "F", "", "1", "2", "full", &bad_day),
        Err(ApiError::DueDayOutOfRange)
    );
    let mut bad_split = checks();
    bad_split.split_months = 0;
    assert_eq!(
        validate_contract_input("", "L", "F", "", "1", "2", "full", &bad_split),
        Err(ApiError::AgentSplitMonthsOutOfRange)
    );
}

#[test]
fn preferred_first_installment_rules() {
    let mut c = checks();
    c.first_installment_positive = Some(false);
    assert_eq!(
        validate_contract_input("", "L", "F", "", "1", "2", "half", &c),
        Err(ApiError::FirstInstallmentNotPositive)
    );
    c.first_installment_positive = Some(true);
    c.term_months = 1;
    assert_eq!(
        validate_contract_input("", "L", "F", "", "1", "2", "half", &c),
        Err(ApiError::FirstInstallmentNeedsTwoMonths)
    );
    c.term_months = 0;
    c.term_years = 0;
    assert_eq!(
        validate_contract_input("", "L", "F", "", "1", "2", "half", &c),
        Err(ApiError::FirstInstallmentNeedsTwoMonths)
    );
    c.term_years = 1;
    assert_eq!(validate_contract_input("", "L", "F", "", "1", "2", "half", &c), Ok(()));
    c.term_months = 2;
    c.term_years = 0;
    assert_eq!(validate_contract_input("", "L", "F", "", "1", "2", "half", &c), Ok(()));
}

#[test]
fn buyer_account_roles() {
    for role in ["User", "Agent", "Lead Broker", "Titling Officer"] {
        assert_eq!(check_buyer_account(Some(role)), Ok(()));
    }
    assert_eq!(check_buyer_account(Some("Admin")), Err(ApiError::BuyerAccountNotAllowed));
    assert_eq!(check_buyer_account(Some("")), Err(ApiError::BuyerAccountNotAllowed));
    assert_eq!(check_buyer_account(None), Err(ApiError::BuyerAccountNotFound));
}

#[test]
fn lot_status_follows_payment() {
    assert_eq!(lot_status_for_contract(true, "installment"), LotStatus::Sold);
    assert_eq!(lot_status_for_contract(false, "full"), LotStatus::Sold);
    assert_eq!(lot_status_for_contract(false, "half"), LotStatus::Installment);
    assert_eq!(LotStatus::Installment.as_str(), "Installment");
    assert_eq!(LotStatus::Available.as_str(), "Available");
}

#[test]
fn contract_status_classification() {
    let today = d(2024, 6, 10);
    assert_eq!(contract_status(true, d(2024, 1, 1), today), ContractStatus::FullyPaid);
    assert_eq!(contract_status(false, d(2024, 6, 9), today), ContractStatus::NeedsAttention);
    assert_eq!(contract_status(false, d(2024, 6, 10), today), ContractStatus::OnTrack);
    assert_eq!(ContractStatus::NeedsAttention.as_str(), "Needs Attention");
    assert_eq!(ContractStatus::FullyPaid.as_str(), "Fully Paid");
    assert_eq!(ContractStatus::OnTrack.as_str(), "On Track");
}

#[test]
fn schedule_length_from_terms() {
    assert_eq!(schedule_total_months(18, 5), 18);
    assert_eq!(schedule_total_months(0, 5), 60);
    assert_eq!(schedule_total_months(0, 0), 1);
    assert_eq!(schedule_total_months(-3, -1), 1);
}

#[test]
fn schedule_anchors() {
    let today = d(2025, 1, 1);
    assert_eq!(payment_schedule_anchor(Some(d(2024, 2, 1)), Some(d(2024, 1, 1)), 0, today), d(2024, 2, 1));
    assert_eq!(payment_schedule_anchor(None, Some(d(2024, 1, 1)), 0, today), d(2024, 1, 1));
    assert_eq!(payment_schedule_anchor(None, None, 86_400, today), d(1970, 1, 2));
    assert_eq!(payment_schedule_anchor(None, None, i64::MIN, today), today);
    assert_eq!(edit_schedule_anchor(None, None, today), today);
    assert_eq!(edit_schedule_anchor(None, Some(d(2024, 1, 1)), today), d(2024, 1, 1));
}

#[test]
fn bulk_delete_dedups_and_limits() {
    assert_eq!(prepare_bulk_delete(&vec![]), Err(ApiError::NoContractIds));
    assert_eq!(prepare_bulk_delete(&vec![9, 3, 9, 1, 3]), Ok(vec![1, 3, 9]));
    let hundred: Vec<u128> = (0..100).rev().collect();
    assert_eq!(prepare_bulk_delete(&hundred).unwrap().len(), 100);
    let mut too_many: Vec<u128> = (0..101).collect();
    assert_eq!(prepare_bulk_delete(&too_many), Err(ApiError::TooManyContractIds));
    // Duplicates do not count toward the limit.
    too_many.pop();
    too_many.extend_from_slice(&[5, 5, 5]);
    assert!(prepare_bulk_delete(&too_many).is_ok());
}

#[test]
fn bulk_delete_depends_only_on_the_id_set() {
    let a = prepare_bulk_delete(&vec![4, 2, 7, 2]).unwrap();
    let b = prepare_bulk_delete(&vec![7, 7, 4, 2]).unwrap();
    assert_eq!(a, b);
}

#[test]
fn bulk_delete_requires_every_id_found() {
    assert_eq!(check_bulk_delete_found(3, 3), Ok(()));
    assert_eq!(check_bulk_delete_found(3, 2), Err(ApiError::ContractsNotInProject));
}

#[test]
fn error_statuses_and_messages() {
    assert_eq!(ApiError::ContractsNotInProject.status(), 404);
    assert_eq!(ApiError::NoContractIds.status(), 422);
    assert_eq!(ApiError::TooManyContractIds.message(), "Cannot delete more than 100 contracts at once");
    assert_eq!(ApiError::InvalidPaymentMethod.message(), "Invalid payment method");
}
