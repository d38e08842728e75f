use vstd::prelude::*;

use crate::dates::{Date, chrono_timestamp_ymd, date_or_timestamp, ymd_date};
use crate::error::ApiError;
use crate::sorted::{lemma_increasing_distinct_count, sorted_unique, strictly_increasing};
use crate::text::{byte_count, byte_len, lemma_trim_idempotent, owned, str_eq, trim, trimmed};

verus! {

/// Split length a new contract gets when the request names none.
pub const DEFAULT_SPLIT_MONTHS: i32 = 36;

/// Most contracts one bulk delete may name (after duplicates are dropped).
pub const BULK_DELETE_MAX: usize = 100;

/// Longest buyer name (or name part), in UTF-8 bytes.
pub const MAX_BUYER_NAME_BYTES: usize = 255;

/// Split length used when a contract request leaves it out.
pub fn default_split_months() -> (r: i32)
    ensures
        r == DEFAULT_SPLIT_MONTHS,
{
    DEFAULT_SPLIT_MONTHS
}

/// Payment method of the opening payment when a contract request leaves it out.
pub fn default_opening_method() -> (r: String)
    ensures
        r@ == "cash"@,
{
    String::from_str("cash")
}

/// The payment plans a contract may have.
pub open spec fn is_payment_plan(s: Seq<char>) -> bool {
    s == "installment"@ || s == "half"@ || s == "full"@
}

/// The ways a payment may be made.
pub open spec fn is_payment_method(s: Seq<char>) -> bool {
    s == "cash"@ || s == "gcash"@ || s == "maya"@ || s == "bank"@ || s == "others"@
}

/// Whether `plan` is one of the contract payment plans.
pub fn payment_plan_known(plan: &str) -> (r: bool)
    ensures
        r == is_payment_plan(plan@),
{
    str_eq(plan, "installment") || str_eq(plan, "half") || str_eq(plan, "full")
}

/// Whether `method` is one of the payment methods.
pub fn payment_method_known(method: &str) -> (r: bool)
    ensures
        r == is_payment_method(method@),
{
    str_eq(method, "cash") || str_eq(method, "gcash") || str_eq(method, "maya") || str_eq(
        method,
        "bank",
    ) || str_eq(method, "others")
}

/// The details stored with a payment, each trimmed, and blank where the
/// payment method does not use it.
pub struct PaymentMeta {
    pub reference_no: String,
    pub bank_name: String,
    pub sender_name: String,
    pub receiver_name: String,
    pub mode_label: String,
}

/// `s` trimmed when `keep`, else empty.
pub open spec fn kept(keep: bool, s: Seq<char>) -> Seq<char> {
    if keep {
        trimmed(s)
    } else {
        Seq::empty()
    }
}

/// E-wallet methods, which record sender and receiver.
pub open spec fn is_wallet(method: Seq<char>) -> bool {
    method == "gcash"@ || method == "maya"@
}

/// Why the details of a payment are refused, if they are: each method names
/// the fields it needs.
pub open spec fn spec_payment_meta_error(
    method: Seq<char>,
    reference_no: Seq<char>,
    bank_name: Seq<char>,
    mode_label: Seq<char>,
) -> Option<ApiError> {
    if method == "cash"@ {
        None
    } else if is_wallet(method) {
        if trimmed(reference_no).len() == 0 {
            Some(ApiError::ReferenceOrTransactionRequired)
        } else {
            None
        }
    } else if method == "bank"@ {
        if trimmed(bank_name).len() == 0 {
            Some(ApiError::BankNameRequired)
        } else if trimmed(reference_no).len() == 0 {
            Some(ApiError::ReferenceNumberRequired)
        } else {
            None
        }
    } else if method == "others"@ {
        if trimmed(mode_label).len() == 0 {
            Some(ApiError::PaymentLabelRequired)
        } else {
            None
        }
    } else {
        Some(ApiError::InvalidPaymentMethod)
    }
}

/// `m` holds exactly the fields that `method` keeps, trimmed.
pub open spec fn payment_meta_matches(
    m: PaymentMeta,
    method: Seq<char>,
    reference_no: Seq<char>,
    bank_name: Seq<char>,
    sender_name: Seq<char>,
    receiver_name: Seq<char>,
    mode_label: Seq<char>,
) -> bool {
    &&& m.reference_no@ == kept(method != "cash"@, reference_no)
    &&& m.bank_name@ == kept(method == "bank"@, bank_name)
    &&& m.sender_name@ == kept(is_wallet(method), sender_name)
    &&& m.receiver_name@ == kept(is_wallet(method), receiver_name)
    &&& m.mode_label@ == kept(method == "others"@, mode_label)
}

fn blank_meta() -> (m: PaymentMeta)
    ensures
        m.reference_no@ == Seq::<char>::empty(),
        m.bank_name@ == Seq::<char>::empty(),
        m.sender_name@ == Seq::<char>::empty(),
        m.receiver_name@ == Seq::<char>::empty(),
        m.mode_label@ == Seq::<char>::empty(),
{
    PaymentMeta {
        reference_no: String::new(),
        bank_name: String::new(),
        sender_name: String::new(),
        receiver_name: String::new(),
        mode_label: String::new(),
    }
}

/// Checks and normalizes the details of a payment for its method: cash keeps
/// none; GCash and Maya need a reference and keep sender and receiver; a bank
/// transfer needs a bank name and a reference; "others" needs a label.
pub fn normalize_payment_fields(
    method: &str,
    reference_no: &str,
    bank_name: &str,
    sender_name: &str,
    receiver_name: &str,
    mode_label: &str,
) -> (r: Result<PaymentMeta, ApiError>)
    ensures
        match r {
            Ok(m) => spec_payment_meta_error(method@, reference_no@, bank_name@, mode_label@) is None
                && payment_meta_matches(
                m,
                method@,
                reference_no@,
                bank_name@,
                sender_name@,
                receiver_name@,
                mode_label@,
            ),
            Err(e) => spec_payment_meta_error(method@, reference_no@, bank_name@, mode_label@)
                == Some(e),
        },
{
    proof {
        reveal_strlit("cash");
        reveal_strlit("gcash");
        reveal_strlit("maya");
        reveal_strlit("bank");
        reveal_strlit("others");
        assert("cash"@[0] != "bank"@[0] && "cash"@[0] != "gcash"@[0] && "cash"@[0] != "maya"@[0]
            && "cash"@[0] != "others"@[0]);
        assert("gcash"@[0] != "bank"@[0] && "gcash"@[0] != "maya"@[0] && "gcash"@[0]
            != "others"@[0]);
        assert("maya"@[0] != "bank"@[0] && "maya"@[0] != "others"@[0] && "bank"@[0]
            != "others"@[0]);
    }
    let reference_no = trim(reference_no);
    let bank_name = trim(bank_name);
    let sender_name = trim(sender_name);
    let receiver_name = trim(receiver_name);
    let mode_label = trim(mode_label);
    if str_eq(method, "cash") {
        Ok(blank_meta())
    } else if str_eq(method, "gcash") || str_eq(method, "maya") {
        if reference_no.is_empty() {
            return Err(ApiError::ReferenceOrTransactionRequired);
        }
        let mut m = blank_meta();
        m.reference_no = owned(reference_no);
        m.sender_name = owned(sender_name);
        m.receiver_name = owned(receiver_name);
        Ok(m)
    } else if str_eq(method, "bank") {
        if bank_name.is_empty() {
            return Err(ApiError::BankNameRequired);
        }
        if reference_no.is_empty() {
            return Err(ApiError::ReferenceNumberRequired);
        }
        let mut m = blank_meta();
        m.reference_no = owned(reference_no);
        m.bank_name = owned(bank_name);
        Ok(m)
    } else if str_eq(method, "others") {
        if mode_label.is_empty() {
            return Err(ApiError::PaymentLabelRequired);
        }
        let mut m = blank_meta();
        m.reference_no = owned(reference_no);
        m.mode_label = owned(mode_label);
        Ok(m)
    } else {
        Err(ApiError::InvalidPaymentMethod)
    }
}

/// Why a new payment is refused, if it is: an unknown method, a non-positive
/// amount, a negative month count, then the details its method needs.
pub open spec fn spec_record_payment_error(
    method: Seq<char>,
    amount_positive: bool,
    months_covered: int,
    reference_no: Seq<char>,
    bank_name: Seq<char>,
    mode_label: Seq<char>,
) -> Option<ApiError> {
    if !is_payment_method(method) {
        Some(ApiError::InvalidPaymentMethod)
    } else if !amount_positive {
        Some(ApiError::PaymentAmountNotPositive)
    } else if months_covered < 0 {
        Some(ApiError::MonthsCoveredNegative)
    } else {
        spec_payment_meta_error(method, reference_no, bank_name, mode_label)
    }
}

/// Checks a payment about to be recorded and normalizes its details.
/// `amount_positive` says whether the amount is greater than zero.
pub fn validate_record_payment(
    method: &str,
    amount_positive: bool,
    months_covered: i32,
    reference_no: &str,
    bank_name: &str,
    sender_name: &str,
    receiver_name: &str,
    mode_label: &str,
) -> (r: Result<PaymentMeta, ApiError>)
    ensures
        match r {
            Ok(m) => spec_record_payment_error(
                method@,
                amount_positive,
                months_covered as int,
                reference_no@,
                bank_name@,
                mode_label@,
            ) is None && payment_meta_matches(
                m,
                method@,
                reference_no@,
                bank_name@,
                sender_name@,
                receiver_name@,
                mode_label@,
            ),
            Err(e) => spec_record_payment_error(
                method@,
                amount_positive,
                months_covered as int,
                reference_no@,
                bank_name@,
                mode_label@,
            ) == Some(e),
        },
{
    if !payment_method_known(method) {
        return Err(ApiError::InvalidPaymentMethod);
    }
    if !amount_positive {
        return Err(ApiError::PaymentAmountNotPositive);
    }
    if months_covered < 0 {
        return Err(ApiError::MonthsCoveredNegative);
    }
    normalize_payment_fields(method, reference_no, bank_name, sender_name, receiver_name, mode_label)
}

/// Why a corrected payment is refused, if it is: an unknown method, a
/// non-positive amount, then the details its method needs.
pub open spec fn spec_payment_update_error(
    method: Seq<char>,
    amount_positive: bool,
    reference_no: Seq<char>,
    bank_name: Seq<char>,
    mode_label: Seq<char>,
) -> Option<ApiError> {
    if !is_payment_method(method) {
        Some(ApiError::InvalidPaymentMethod)
    } else if !amount_positive {
        Some(ApiError::PaymentAmountNotPositive)
    } else {
        spec_payment_meta_error(method, reference_no, bank_name, mode_label)
    }
}

/// Checks a correction to a recorded payment and normalizes its details.
pub fn validate_payment_update(
    method: &str,
    amount_positive: bool,
    reference_no: &str,
    bank_name: &str,
    sender_name: &str,
    receiver_name: &str,
    mode_label: &str,
) -> (r: Result<PaymentMeta, ApiError>)
    ensures
        match r {
            Ok(m) => spec_payment_update_error(
                method@,
                amount_positive,
                reference_no@,
                bank_name@,
                mode_label@,
            ) is None && payment_meta_matches(
                m,
                method@,
                reference_no@,
                bank_name@,
                sender_name@,
                receiver_name@,
                mode_label@,
            ),
            Err(e) => spec_payment_update_error(
                method@,
                amount_positive,
                reference_no@,
                bank_name@,
                mode_label@,
            ) == Some(e),
        },
{
    if !payment_method_known(method) {
        return Err(ApiError::InvalidPaymentMethod);
    }
    if !amount_positive {
        return Err(ApiError::PaymentAmountNotPositive);
    }
    normalize_payment_fields(method, reference_no, bank_name, sender_name, receiver_name, mode_label)
}

/// Method of the opening payment: the trimmed request text, or `cash` when blank.
pub open spec fn spec_opening_method(raw: Seq<char>) -> Seq<char> {
    if trimmed(raw).len() == 0 {
        "cash"@
    } else {
        trimmed(raw)
    }
}

/// Resolves and checks the method and details of the payment recorded with a
/// new contract's initial payment.
pub fn prepare_opening_payment(
    raw_method: &str,
    reference_no: &str,
    bank_name: &str,
    sender_name: &str,
    receiver_name: &str,
    mode_label: &str,
) -> (r: Result<(String, PaymentMeta), ApiError>)
    ensures
        !is_payment_method(spec_opening_method(raw_method@)) ==> r == Err::<
            (String, PaymentMeta),
            ApiError,
        >(ApiError::InvalidPaymentMethod),
        is_payment_method(spec_opening_method(raw_method@)) ==> match r {
            Ok((m, meta)) => m@ == spec_opening_method(raw_method@) && spec_payment_meta_error(
                m@,
                reference_no@,
                bank_name@,
                mode_label@,
            ) is None && payment_meta_matches(
                meta,
                m@,
                reference_no@,
                bank_name@,
                sender_name@,
                receiver_name@,
                mode_label@,
            ),
            Err(e) => spec_payment_meta_error(
                spec_opening_method(raw_method@),
                reference_no@,
                bank_name@,
                mode_label@,
            ) == Some(e),
        },
{
    let t = trim(raw_method);
    let method: &str = if t.is_empty() {
        "cash"
    } else {
        t
    };
    if !payment_method_known(method) {
        return Err(ApiError::InvalidPaymentMethod);
    }
    match normalize_payment_fields(
        method,
        reference_no,
        bank_name,
        sender_name,
        receiver_name,
        mode_label,
    ) {
        Ok(meta) => Ok((owned(method), meta)),
        Err(e) => Err(e),
    }
}

/// `last, first` or `last, first middle`, from parts used as given.
pub open spec fn join_buyer_name(last: Seq<char>, first: Seq<char>, middle: Seq<char>) -> Seq<
    char,
> {
    if middle.len() == 0 {
        last + ", "@ + first
    } else {
        last + ", "@ + first + " "@ + middle
    }
}

/// Display name of a buyer from the trimmed name parts.
pub open spec fn spec_format_buyer_name(last: Seq<char>, first: Seq<char>, middle: Seq<char>) -> Seq<
    char,
> {
    join_buyer_name(trimmed(last), trimmed(first), trimmed(middle))
}

fn join_name_parts(last: &str, first: &str, middle: &str) -> (r: String)
    ensures
        r@ == join_buyer_name(last@, first@, middle@),
{
    let mut s = String::from_str(last);
    s.append(", ");
    s.append(first);
    if !middle.is_empty() {
        s.append(" ");
        s.append(middle);
    }
    s
}

/// `last, first middle` (or `last, first` without a middle name), each part trimmed.
pub fn format_buyer_name(last: &str, first: &str, middle: &str) -> (r: String)
    ensures
        r@ == spec_format_buyer_name(last@, first@, middle@),
{
    join_name_parts(trim(last), trim(first), trim(middle))
}

/// A buyer's name as stored: from separate parts, or one legacy free-text name.
pub enum ResolvedBuyerNames {
    FromParts { buyer_name: String, last: String, first: String, middle: String },
    Legacy { buyer_name: String },
}

impl ResolvedBuyerNames {
    /// The full display name.
    pub open spec fn spec_display_name(&self) -> Seq<char> {
        match self {
            ResolvedBuyerNames::FromParts { buyer_name, .. } => buyer_name@,
            ResolvedBuyerNames::Legacy { buyer_name } => buyer_name@,
        }
    }

    /// The full display name.
    pub fn display_name(&self) -> (r: &str)
        ensures
            r@ == self.spec_display_name(),
    {
        match self {
            ResolvedBuyerNames::FromParts { buyer_name, .. } => buyer_name.as_str(),
            ResolvedBuyerNames::Legacy { buyer_name } => buyer_name.as_str(),
        }
    }
}

/// A name (part) longer than a stored name may be.
pub open spec fn name_too_long(s: Seq<char>) -> bool {
    byte_count(s) > MAX_BUYER_NAME_BYTES
}

/// Some name part is given (not blank).
pub open spec fn has_name_parts(last: Seq<char>, first: Seq<char>, middle: Seq<char>) -> bool {
    trimmed(last).len() > 0 || trimmed(first).len() > 0 || trimmed(middle).len() > 0
}

/// Why the buyer name of a request is refused, if it is. With any part given,
/// last and first are required and no part may exceed 255 bytes; otherwise
/// the legacy name must be non-blank and at most 255 bytes.
pub open spec fn spec_buyer_names_error(
    buyer_name: Seq<char>,
    last: Seq<char>,
    first: Seq<char>,
    middle: Seq<char>,
) -> Option<ApiError> {
    if has_name_parts(last, first, middle) {
        if trimmed(last).len() == 0 || trimmed(first).len() == 0 {
            Some(ApiError::BuyerNamePartsRequired)
        } else if name_too_long(trimmed(last)) || name_too_long(trimmed(first)) || name_too_long(
            trimmed(middle),
        ) {
            Some(ApiError::InvalidBuyerName)
        } else {
            None
        }
    } else if trimmed(buyer_name).len() == 0 || name_too_long(trimmed(buyer_name)) {
        Some(ApiError::InvalidBuyerName)
    } else {
        None
    }
}

/// The names stored for a buyer: from the parts when any is given, else the
/// legacy single name.
pub fn resolve_buyer_names(buyer_name: &str, last: &str, first: &str, middle: &str) -> (r: Result<
    ResolvedBuyerNames,
    ApiError,
>)
    ensures
        match r {
            Ok(ResolvedBuyerNames::FromParts { buyer_name: n, last: l, first: f, middle: m }) => {
                &&& spec_buyer_names_error(buyer_name@, last@, first@, middle@) is None
                &&& has_name_parts(last@, first@, middle@)
                &&& n@ == spec_format_buyer_name(last@, first@, middle@)
                &&& l@ == trimmed(last@)
                &&& f@ == trimmed(first@)
                &&& m@ == trimmed(middle@)
            },
            Ok(ResolvedBuyerNames::Legacy { buyer_name: n }) => {
                &&& spec_buyer_names_error(buyer_name@, last@, first@, middle@) is None
                &&& !has_name_parts(last@, first@, middle@)
                &&& n@ == trimmed(buyer_name@)
            },
            Err(e) => spec_buyer_names_error(buyer_name@, last@, first@, middle@) == Some(e),
        },
{
    let l = trim(last);
    let f = trim(first);
    let m = trim(middle);
    if !l.is_empty() || !f.is_empty() || !m.is_empty() {
        if l.is_empty() || f.is_empty() {
            return Err(ApiError::BuyerNamePartsRequired);
        }
        if byte_len(l) > MAX_BUYER_NAME_BYTES || byte_len(f) > MAX_BUYER_NAME_BYTES || byte_len(m)
            > MAX_BUYER_NAME_BYTES {
            return Err(ApiError::InvalidBuyerName);
        }
        return Ok(
            ResolvedBuyerNames::FromParts {
                buyer_name: join_name_parts(l, f, m),
                last: owned(l),
                first: owned(f),
                middle: owned(m),
            },
        );
    }
    let n = trim(buyer_name);
    if n.is_empty() || byte_len(n) > MAX_BUYER_NAME_BYTES {
        return Err(ApiError::InvalidBuyerName);
    }
    Ok(ResolvedBuyerNames::Legacy { buyer_name: owned(n) })
}

/// The display name stored for a buyer named by parts is exactly what
/// `format_buyer_name` gives for the stored (trimmed) parts.
pub proof fn lemma_buyer_name_reformats(last: Seq<char>, first: Seq<char>, middle: Seq<char>)
    ensures
        spec_format_buyer_name(trimmed(last), trimmed(first), trimmed(middle))
            == spec_format_buyer_name(last, first, middle),
{
    lemma_trim_idempotent(last);
    lemma_trim_idempotent(first);
    lemma_trim_idempotent(middle);
}

/// Normalizing payment details that were already normalized for the same
/// method refuses nothing and changes nothing.
pub proof fn lemma_payment_meta_stable(
    method: Seq<char>,
    reference_no: Seq<char>,
    bank_name: Seq<char>,
    sender_name: Seq<char>,
    receiver_name: Seq<char>,
    mode_label: Seq<char>,
)
    requires
        spec_payment_meta_error(method, reference_no, bank_name, mode_label) is None,
    ensures
        ({
            let r = kept(method != "cash"@, reference_no);
            let b = kept(method == "bank"@, bank_name);
            let s = kept(is_wallet(method), sender_name);
            let c = kept(is_wallet(method), receiver_name);
            let l = kept(method == "others"@, mode_label);
            &&& spec_payment_meta_error(method, r, b, l) is None
            &&& kept(method != "cash"@, r) == r
            &&& kept(method == "bank"@, b) == b
            &&& kept(is_wallet(method), s) == s
            &&& kept(is_wallet(method), c) == c
            &&& kept(method == "others"@, l) == l
        }),
{
    lemma_trim_idempotent(reference_no);
    lemma_trim_idempotent(bank_name);
    lemma_trim_idempotent(sender_name);
    lemma_trim_idempotent(receiver_name);
    lemma_trim_idempotent(mode_label);
    lemma_trim_idempotent(Seq::<char>::empty());
    reveal_strlit("cash");
    reveal_strlit("gcash");
    reveal_strlit("maya");
    reveal_strlit("bank");
    reveal_strlit("others");
    assert("cash"@[0] != "bank"@[0] && "cash"@[0] != "gcash"@[0] && "cash"@[0] != "maya"@[0]
        && "cash"@[0] != "others"@[0]);
    assert("gcash"@[0] != "bank"@[0] && "gcash"@[0] != "maya"@[0] && "gcash"@[0] != "others"@[0]);
    assert("maya"@[0] != "bank"@[0] && "maya"@[0] != "others"@[0] && "bank"@[0] != "others"@[0]);
    assert(trimmed(Seq::<char>::empty()) =~= Seq::<char>::empty());
}

/// A new contract must name its buyer by parts; a legacy single name is refused.
pub fn require_name_parts(names: ResolvedBuyerNames) -> (r: Result<ResolvedBuyerNames, ApiError>)
    ensures
        names is FromParts ==> r == Ok::<ResolvedBuyerNames, ApiError>(names),
        names is Legacy ==> r == Err::<ResolvedBuyerNames, ApiError>(
            ApiError::BuyerNamePartsRequired,
        ),
{
    match names {
        ResolvedBuyerNames::FromParts { .. } => Ok(names),
        ResolvedBuyerNames::Legacy { .. } => Err(ApiError::BuyerNamePartsRequired),
    }
}

/// The facts about a contract request that its checks read, besides the
/// text fields. The signs of the decimal amounts come as booleans.
pub struct ContractChecks {
    /// A buyer account is linked.
    pub has_buyer_account: bool,
    /// Lot area, lot rate, initial payment or monthly amortization is negative.
    pub any_amount_negative: bool,
    pub due_day: i32,
    pub split_months: i32,
    /// Whether a preferred first installment is given, and if so whether it is
    /// greater than zero.
    pub first_installment_positive: Option<bool>,
    pub term_months: i32,
    pub term_years: i32,
}

/// Installment months the term fields describe: `term_months` when positive,
/// else twelve per year.
pub open spec fn term_installment_months(term_months: int, term_years: int) -> int {
    if term_months > 0 {
        term_months
    } else {
        term_years * 12
    }
}

/// Why a contract request is refused, if it is, in the order the checks run.
pub open spec fn spec_contract_input_error(
    buyer_name: Seq<char>,
    last: Seq<char>,
    first: Seq<char>,
    middle: Seq<char>,
    lot_block: Seq<char>,
    lot_lot: Seq<char>,
    payment_plan: Seq<char>,
    c: ContractChecks,
) -> Option<ApiError> {
    if spec_buyer_names_error(buyer_name, last, first, middle) is Some {
        spec_buyer_names_error(buyer_name, last, first, middle)
    } else if !c.has_buyer_account {
        Some(ApiError::BuyerAccountRequired)
    } else if trimmed(lot_block).len() == 0 || trimmed(lot_lot).len() == 0 {
        Some(ApiError::BlockAndLotRequired)
    } else if !is_payment_plan(payment_plan) {
        Some(ApiError::InvalidPaymentPlan)
    } else if c.any_amount_negative {
        Some(ApiError::NegativeNumericField)
    } else if !(1 <= c.due_day <= 31) {
        Some(ApiError::DueDayOutOfRange)
    } else if !(1 <= c.split_months <= 120) {
        Some(ApiError::AgentSplitMonthsOutOfRange)
    } else {
        match c.first_installment_positive {
            Some(false) => Some(ApiError::FirstInstallmentNotPositive),
            Some(true) => if term_installment_months(c.term_months as int, c.term_years as int)
                < 2 {
                Some(ApiError::FirstInstallmentNeedsTwoMonths)
            } else {
                None
            },
            None => None,
        }
    }
}

/// Checks a contract request (create or edit) before anything is written.
pub fn validate_contract_input(
    buyer_name: &str,
    last: &str,
    first: &str,
    middle: &str,
    lot_block: &str,
    lot_lot: &str,
    payment_plan: &str,
    c: &ContractChecks,
) -> (r: Result<(), ApiError>)
    ensures
        match r {
            Ok(_) => spec_contract_input_error(
                buyer_name@,
                last@,
                first@,
                middle@,
                lot_block@,
                lot_lot@,
                payment_plan@,
                *c,
            ) is None,
            Err(e) => spec_contract_input_error(
                buyer_name@,
                last@,
                first@,
                middle@,
                lot_block@,
                lot_lot@,
                payment_plan@,
                *c,
            ) == Some(e),
        },
{
    match resolve_buyer_names(buyer_name, last, first, middle) {
        Err(e) => {
            return Err(e);
        },
        Ok(_) => {},
    }
    if !c.has_buyer_account {
        return Err(ApiError::BuyerAccountRequired);
    }
    if trim(lot_block).is_empty() || trim(lot_lot).is_empty() {
        return Err(ApiError::BlockAndLotRequired);
    }
    if !payment_plan_known(payment_plan) {
        return Err(ApiError::InvalidPaymentPlan);
    }
    if c.any_amount_negative {
        return Err(ApiError::NegativeNumericField);
    }
    if c.due_day < 1 || c.due_day > 31 {
        return Err(ApiError::DueDayOutOfRange);
    }
    if c.split_months < 1 || c.split_months > 120 {
        return Err(ApiError::AgentSplitMonthsOutOfRange);
    }
    match c.first_installment_positive {
        Some(false) => Err(ApiError::FirstInstallmentNotPositive),
        Some(true) => {
            let months: i64 = if c.term_months > 0 {
                c.term_months as i64
            } else {
                (c.term_years as i64) * 12
            };
            if months < 2 {
                Err(ApiError::FirstInstallmentNeedsTwoMonths)
            } else {
                Ok(())
            }
        },
        None => Ok(()),
    }
}

/// Account roles that may be linked as a contract's buyer.
pub open spec fn is_buyer_role(role: Seq<char>) -> bool {
    role == "User"@ || role == "Agent"@ || role == "Lead Broker"@ || role == "Titling Officer"@
}

/// Checks the account linked as buyer, given its role (`None` when no such
/// account exists).
pub fn check_buyer_account(role: Option<&str>) -> (r: Result<(), ApiError>)
    ensures
        role is None ==> r == Err::<(), ApiError>(ApiError::BuyerAccountNotFound),
        role matches Some(x) ==> (r is Ok <==> is_buyer_role(x@)),
        role matches Some(x) ==> (!is_buyer_role(x@) ==> r == Err::<(), ApiError>(
            ApiError::BuyerAccountNotAllowed,
        )),
{
    match role {
        None => Err(ApiError::BuyerAccountNotFound),
        Some(x) => {
            if str_eq(x, "User") || str_eq(x, "Agent") || str_eq(x, "Lead Broker") || str_eq(
                x,
                "Titling Officer",
            ) {
                Ok(())
            } else {
                Err(ApiError::BuyerAccountNotAllowed)
            }
        },
    }
}

/// Pricelist status of a lot.
#[derive(Clone, Copy, Debug, PartialEq, Eq, Structural)]
pub enum LotStatus {
    Available,
    Reserved,
    Installment,
    Sold,
}

impl LotStatus {
    /// Stored spelling of the status.
    pub open spec fn text(self) -> Seq<char> {
        match self {
            LotStatus::Available => "Available"@,
            LotStatus::Reserved => "Reserved"@,
            LotStatus::Installment => "Installment"@,
            LotStatus::Sold => "Sold"@,
        }
    }

    /// Stored spelling of the status.
    pub fn as_str(&self) -> (r: &'static str)
        ensures
            r@ == self.text(),
    {
        match self {
            LotStatus::Available => "Available",
            LotStatus::Reserved => "Reserved",
            LotStatus::Installment => "Installment",
            LotStatus::Sold => "Sold",
        }
    }
}

/// Status a contract's lot gets: sold once fully paid or on a full-payment
/// plan, otherwise under installment.
pub fn lot_status_for_contract(fully_paid: bool, payment_plan: &str) -> (r: LotStatus)
    ensures
        r == (if fully_paid || payment_plan@ == "full"@ {
            LotStatus::Sold
        } else {
            LotStatus::Installment
        }),
{
    if fully_paid || str_eq(payment_plan, "full") {
        LotStatus::Sold
    } else {
        LotStatus::Installment
    }
}

/// Where a contract stands.
#[derive(Clone, Copy, Debug, PartialEq, Eq, Structural)]
pub enum ContractStatus {
    FullyPaid,
    NeedsAttention,
    OnTrack,
}

impl ContractStatus {
    /// Display text of the status.
    pub open spec fn text(self) -> Seq<char> {
        match self {
            ContractStatus::FullyPaid => "Fully Paid"@,
            ContractStatus::NeedsAttention => "Needs Attention"@,
            ContractStatus::OnTrack => "On Track"@,
        }
    }

    /// Display text of the status.
    pub fn as_str(&self) -> (r: &'static str)
        ensures
            r@ == self.text(),
    {
        match self {
            ContractStatus::FullyPaid => "Fully Paid",
            ContractStatus::NeedsAttention => "Needs Attention",
            ContractStatus::OnTrack => "On Track",
        }
    }
}

/// Fully paid when nothing is left to pay; otherwise in need of attention when
/// the next due date has passed, else on track.
pub fn contract_status(balance_settled: bool, next_due: Date, today: Date) -> (r: ContractStatus)
    requires
        next_due.valid(),
        today.valid(),
    ensures
        r == (if balance_settled {
            ContractStatus::FullyPaid
        } else if next_due.key() < today.key() {
            ContractStatus::NeedsAttention
        } else {
            ContractStatus::OnTrack
        }),
{
    if balance_settled {
        ContractStatus::FullyPaid
    } else if next_due.is_before(&today) {
        ContractStatus::NeedsAttention
    } else {
        ContractStatus::OnTrack
    }
}

/// Number of contracts in each status, for a project's dashboard.
pub struct ContractStatusCounts {
    pub fully_paid: i64,
    pub needs_attention: i64,
    pub on_track: i64,
}

/// Months of the installment schedule: `term_months` when positive, else
/// twelve per year when the years are positive, else a single month.
pub open spec fn spec_schedule_total_months(term_months: int, term_years: int) -> int {
    if term_months > 0 {
        term_months
    } else if term_years > 0 {
        term_years * 12
    } else {
        1
    }
}

/// Months of the installment schedule a contract's terms describe.
pub fn schedule_total_months(term_months: i32, term_years: i32) -> (r: i32)
    requires
        term_months <= 0 && term_years > 0 ==> term_years * 12 <= i32::MAX,
    ensures
        r == spec_schedule_total_months(term_months as int, term_years as int),
        r >= 1,
{
    if term_months > 0 {
        term_months
    } else if term_years > 0 {
        term_years * 12
    } else {
        1
    }
}

/// Anchor of the schedule replayed after a payment is recorded, corrected or
/// removed: the amortization start, else the approval date, else the UTC day
/// of the contract's last update, else `today`.
pub fn payment_schedule_anchor(
    amort_start: Option<Date>,
    approval: Option<Date>,
    updated_at: i64,
    today: Date,
) -> (r: Date)
    ensures
        amort_start matches Some(a) ==> r == a,
        amort_start is None ==> (approval matches Some(a) ==> r == a),
        amort_start is None && approval is None ==> (ymd_date(chrono_timestamp_ymd(updated_at))
            matches Some(t) ==> r == t),
        amort_start is None && approval is None && chrono_timestamp_ymd(updated_at) is None ==> r
            == today,
{
    let preferred = match amort_start {
        Some(a) => Some(a),
        None => approval,
    };
    date_or_timestamp(preferred, updated_at, today)
}

/// Anchor of the schedule replayed when a contract is edited: the amortization
/// start, else the approval date, else `today`.
pub fn edit_schedule_anchor(amort_start: Option<Date>, approval: Option<Date>, today: Date) -> (r:
    Date)
    ensures
        r == (match amort_start {
            Some(a) => a,
            None => match approval {
                Some(a) => a,
                None => today,
            },
        }),
{
    match amort_start {
        Some(a) => a,
        None => match approval {
            Some(a) => a,
            None => today,
        },
    }
}

/// The distinct contract ids of a bulk delete, ascending, once checked: at
/// least one, and at most 100 distinct ids.
pub fn prepare_bulk_delete(ids: &Vec<u128>) -> (r: Result<Vec<u128>, ApiError>)
    ensures
        ids@.len() == 0 ==> r == Err::<Vec<u128>, ApiError>(ApiError::NoContractIds),
        ids@.len() > 0 && ids@.to_set().len() > BULK_DELETE_MAX ==> r == Err::<
            Vec<u128>,
            ApiError,
        >(ApiError::TooManyContractIds),
        ids@.len() > 0 && ids@.to_set().len() <= BULK_DELETE_MAX ==> match r {
            Ok(u) => strictly_increasing(u@) && u@.to_set() == ids@.to_set() && u@.len()
                == ids@.to_set().len(),
            Err(_) => false,
        },
{
    let u = sorted_unique(ids);
    proof {
        lemma_increasing_distinct_count(u@);
        assert(u@.to_set() =~= ids@.to_set());
        ids@.lemma_cardinality_of_empty_set_is_0();
    }
    if u.len() == 0 {
        return Err(ApiError::NoContractIds);
    }
    if u.len() > BULK_DELETE_MAX {
        return Err(ApiError::TooManyContractIds);
    }
    Ok(u)
}

/// Every requested contract was found in the project (the lookup by project
/// and id returned as many rows as ids were asked for).
pub fn check_bulk_delete_found(requested: usize, found: usize) -> (r: Result<(), ApiError>)
    ensures
        r == (if requested == found {
            Ok::<(), ApiError>(())
        } else {
            Err(ApiError::ContractsNotInProject)
        }),
{
    if requested == found {
        Ok(())
    } else {
        Err(ApiError::ContractsNotInProject)
    }
}

/// The monthly due day of a contract may be any day of the month, 1 through
/// 31: a request that passes the other checks is accepted for every such day,
/// the due day of an accepted request can be moved to any other such day
/// without changing the verdict, and the due-day refusal comes exactly for days
/// outside 1..=31.
pub proof fn lemma_due_day_any_day_of_month(
    buyer_name: Seq<char>,
    last: Seq<char>,
    first: Seq<char>,
    middle: Seq<char>,
    lot_block: Seq<char>,
    lot_lot: Seq<char>,
    payment_plan: Seq<char>,
    c: ContractChecks,
    other_day: i32,
)
    requires
        1 <= other_day <= 31,
    ensures
        spec_contract_input_error(buyer_name, last, first, middle, lot_block, lot_lot, payment_plan, c)
            == Some(ApiError::DueDayOutOfRange) ==> c.due_day < 1 || c.due_day > 31,
        c.due_day < 1 || c.due_day > 31 ==> spec_contract_input_error(
            buyer_name,
            last,
            first,
            middle,
            lot_block,
            lot_lot,
            payment_plan,
            c,
        ) is Some,
        1 <= c.due_day <= 31 ==> spec_contract_input_error(
            buyer_name,
            last,
            first,
            middle,
            lot_block,
            lot_lot,
            payment_plan,
            c,
        ) == spec_contract_input_error(
            buyer_name,
            last,
            first,
            middle,
            lot_block,
            lot_lot,
            payment_plan,
            ContractChecks { due_day: other_day, ..c },
        ),
{
}

} // verus!
