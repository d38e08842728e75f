use vstd::prelude::*;

verus! {

/// Every way a request can be refused; each carries an HTTP status and a message.
#[derive(Clone, Copy, Debug, PartialEq, Eq, Structural)]
pub enum ApiError {
    PeriodStartNotBoundary,
    PeriodEndNotBoundary,
    AgentsNotArray,
    AgentNotObject,
    AgentIdRequired,
    AgentNameRequired,
    AgentRoleRequired,
    InvalidRebalanceStrategy,
    SplitMonthsOutOfRange,
    EffectivePeriodStartFormat,
    EffectivePeriodStartNotBoundary,
    EffectivePeriodStartTooEarly,
    SplitUnchanged,
    SplitMustDiffer,
    InvalidPaymentMethod,
    ReferenceOrTransactionRequired,
    BankNameRequired,
    ReferenceNumberRequired,
    PaymentLabelRequired,
    BuyerNamePartsRequired,
    InvalidBuyerName,
    BuyerAccountRequired,
    BlockAndLotRequired,
    InvalidPaymentPlan,
    NegativeNumericField,
    DueDayOutOfRange,
    AgentSplitMonthsOutOfRange,
    FirstInstallmentNotPositive,
    FirstInstallmentNeedsTwoMonths,
    FirstInstallmentExceedsBalance,
    PromoPriceNotPositive,
    PromoPriceAboveCatalog,
    BuyerAccountNotFound,
    BuyerAccountNotAllowed,
    PaymentAmountNotPositive,
    MonthsCoveredNegative,
    NoContractIds,
    TooManyContractIds,
    ContractsNotInProject,
    NameRequired,
    InvalidEmployeePosition,
    EmployeeStatusInvalid,
    RestDaysOutOfRange,
    PlanStartDateFormat,
    PlanEndDateRequired,
    PlanEndDateFormat,
    PlanEndBeforeStart,
    TrainingFeeNotPositive,
    MonthlyAmountNotPositive,
    InvalidScheduleType,
    InvalidPlanKind,
    AmountNotPositive,
    PeriodStartFormat,
    PeriodEndFormat,
    PeriodEndBeforeStart,
    PaidAtFormat,
    InvalidLabel,
    LabelReserved,
    BasePercentOutOfRange,
    DirectSalePoolOutOfRange,
    PortalPathInvalid,
    PortalPathReserved,
    RoleTypeInUse,
    RoleTypeNotFound,
    InvalidRole,
    InvalidCode,
    PrcLicenseTooLong,
    CommissionRateOutOfRange,
    InvalidStatus,
    BrokerOnlyForAgent,
    SelfReporting,
    UserAlreadyOnRoster,
    RosterCodeTaken,
    RosterValueTaken,
    RosterReferenceMissing,
    RosterSaveFailed,
    InvalidBlock,
    InvalidLot,
    InvalidLotType,
    InvalidArea,
    InvalidRate,
    OwnerBuyerTooLong,
    LotExists,
    InvalidCompanyName,
    OfficeAddressTooLong,
    InvalidCurrency,
    InvalidTimezone,
    InvalidProjectName,
    PositionExists,
    PositionInUse,
    ExpenseCategoryExists,
    ExpenseCategoryMissing,
    PaidToRequired,
    PercentOutOfRange,
    CategoryLabelTaken,
    CategorySaveFailed,
    CannotRenameAgentPool,
    AgentPoolBelowUplines,
    CannotDeleteAgentPool,
    UplineRatesExceedPool,
    FromDateFormat,
    ToDateFormat,
    SubjectRequired,
    InvalidCommissionStatus,
    PartialAmountInvalid,
    PartialPaidAtFormat,
    RowMetaKeysRequired,
    InvalidOtherFlag,
    InvalidOverrideStatus,
    OverrideMonthOutOfRange,
    ContractNotInProject,
    ScheduleDateTaken,
    LastScheduleEntry,
    UplineReserveStatus,
    TitlingReserveStatus,
    LotNotReservable,
    NotAuthenticated,
    SessionExpired,
    AdminRequired,
    AgentRequired,
    LeadBrokerRequired,
    EmployeeRequired,
    TitlingOfficerRequired,
    UnknownUplineRole,
    UplinePortalForbidden,
    UnknownRole,
    LayoutProjectMismatch,
    LayoutVersion,
    LayoutBlocksNotArray,
    LayoutSizeInvalid,
    InvalidStoredLayout,
    PositionSaveFailed,
    RoleTypeTaken,
    RoleTypeSaveFailed,
    EmployeeUserLinked,
    EmployeeSaveFailed,
}

impl ApiError {
    /// HTTP status code of the refusal.
    pub open spec fn spec_status(self) -> u16 {
        match self {
            ApiError::PeriodStartNotBoundary => 422,
            ApiError::PeriodEndNotBoundary => 422,
            ApiError::AgentsNotArray => 422,
            ApiError::AgentNotObject => 422,
            ApiError::AgentIdRequired => 422,
            ApiError::AgentNameRequired => 422,
            ApiError::AgentRoleRequired => 422,
            ApiError::InvalidRebalanceStrategy => 422,
            ApiError::SplitMonthsOutOfRange => 422,
            ApiError::EffectivePeriodStartFormat => 422,
            ApiError::EffectivePeriodStartNotBoundary => 422,
            ApiError::EffectivePeriodStartTooEarly => 422,
            ApiError::SplitUnchanged => 422,
            ApiError::SplitMustDiffer => 422,
            ApiError::InvalidPaymentMethod => 422,
            ApiError::ReferenceOrTransactionRequired => 422,
            ApiError::BankNameRequired => 422,
            ApiError::ReferenceNumberRequired => 422,
            ApiError::PaymentLabelRequired => 422,
            ApiError::BuyerNamePartsRequired => 422,
            ApiError::InvalidBuyerName => 422,
            ApiError::BuyerAccountRequired => 422,
            ApiError::BlockAndLotRequired => 422,
            ApiError::InvalidPaymentPlan => 422,
            ApiError::NegativeNumericField => 422,
            ApiError::DueDayOutOfRange => 422,
            ApiError::AgentSplitMonthsOutOfRange => 422,
            ApiError::FirstInstallmentNotPositive => 422,
            ApiError::FirstInstallmentNeedsTwoMonths => 422,
            ApiError::FirstInstallmentExceedsBalance => 422,
            ApiError::PromoPriceNotPositive => 422,
            ApiError::PromoPriceAboveCatalog => 422,
            ApiError::BuyerAccountNotFound => 422,
            ApiError::BuyerAccountNotAllowed => 422,
            ApiError::PaymentAmountNotPositive => 422,
            ApiError::MonthsCoveredNegative => 422,
            ApiError::NoContractIds => 422,
            ApiError::TooManyContractIds => 422,
            ApiError::ContractsNotInProject => 404,
            ApiError::NameRequired => 422,
            ApiError::InvalidEmployeePosition => 422,
            ApiError::EmployeeStatusInvalid => 422,
            ApiError::RestDaysOutOfRange => 422,
            ApiError::PlanStartDateFormat => 422,
            ApiError::PlanEndDateRequired => 422,
            ApiError::PlanEndDateFormat => 422,
            ApiError::PlanEndBeforeStart => 422,
            ApiError::TrainingFeeNotPositive => 422,
            ApiError::MonthlyAmountNotPositive => 422,
            ApiError::InvalidScheduleType => 422,
            ApiError::InvalidPlanKind => 422,
            ApiError::AmountNotPositive => 422,
            ApiError::PeriodStartFormat => 422,
            ApiError::PeriodEndFormat => 422,
            ApiError::PeriodEndBeforeStart => 422,
            ApiError::PaidAtFormat => 422,
            ApiError::InvalidLabel => 422,
            ApiError::LabelReserved => 422,
            ApiError::BasePercentOutOfRange => 422,
            ApiError::DirectSalePoolOutOfRange => 422,
            ApiError::PortalPathInvalid => 422,
            ApiError::PortalPathReserved => 422,
            ApiError::RoleTypeInUse => 409,
            ApiError::RoleTypeNotFound => 404,
            ApiError::InvalidRole => 422,
            ApiError::InvalidCode => 422,
            ApiError::PrcLicenseTooLong => 422,
            ApiError::CommissionRateOutOfRange => 422,
            ApiError::InvalidStatus => 422,
            ApiError::BrokerOnlyForAgent => 422,
            ApiError::SelfReporting => 422,
            ApiError::UserAlreadyOnRoster => 409,
            ApiError::RosterCodeTaken => 409,
            ApiError::RosterValueTaken => 409,
            ApiError::RosterReferenceMissing => 422,
            ApiError::RosterSaveFailed => 500,
            ApiError::InvalidBlock => 422,
            ApiError::InvalidLot => 422,
            ApiError::InvalidLotType => 422,
            ApiError::InvalidArea => 422,
            ApiError::InvalidRate => 422,
            ApiError::OwnerBuyerTooLong => 422,
            ApiError::LotExists => 409,
            ApiError::InvalidCompanyName => 422,
            ApiError::OfficeAddressTooLong => 422,
            ApiError::InvalidCurrency => 422,
            ApiError::InvalidTimezone => 422,
            ApiError::InvalidProjectName => 422,
            ApiError::PositionExists => 409,
            ApiError::PositionInUse => 409,
            ApiError::ExpenseCategoryExists => 422,
            ApiError::ExpenseCategoryMissing => 422,
            ApiError::PaidToRequired => 422,
            ApiError::PercentOutOfRange => 422,
            ApiError::CategoryLabelTaken => 409,
            ApiError::CategorySaveFailed => 500,
            ApiError::CannotRenameAgentPool => 422,
            ApiError::AgentPoolBelowUplines => 422,
            ApiError::CannotDeleteAgentPool => 409,
            ApiError::UplineRatesExceedPool => 422,
            ApiError::FromDateFormat => 422,
            ApiError::ToDateFormat => 422,
            ApiError::SubjectRequired => 422,
            ApiError::InvalidCommissionStatus => 422,
            ApiError::PartialAmountInvalid => 422,
            ApiError::PartialPaidAtFormat => 422,
            ApiError::RowMetaKeysRequired => 422,
            ApiError::InvalidOtherFlag => 422,
            ApiError::InvalidOverrideStatus => 422,
            ApiError::OverrideMonthOutOfRange => 422,
            ApiError::ContractNotInProject => 404,
            ApiError::ScheduleDateTaken => 409,
            ApiError::LastScheduleEntry => 409,
            ApiError::UplineReserveStatus => 422,
            ApiError::TitlingReserveStatus => 422,
            ApiError::LotNotReservable => 409,
            ApiError::NotAuthenticated => 401,
            ApiError::SessionExpired => 401,
            ApiError::AdminRequired => 403,
            ApiError::AgentRequired => 403,
            ApiError::LeadBrokerRequired => 403,
            ApiError::EmployeeRequired => 403,
            ApiError::TitlingOfficerRequired => 403,
            ApiError::UnknownUplineRole => 404,
            ApiError::UplinePortalForbidden => 403,
            ApiError::UnknownRole => 404,
            ApiError::LayoutProjectMismatch => 422,
            ApiError::LayoutVersion => 422,
            ApiError::LayoutBlocksNotArray => 422,
            ApiError::LayoutSizeInvalid => 422,
            ApiError::InvalidStoredLayout => 500,
            ApiError::PositionSaveFailed => 500,
            ApiError::RoleTypeTaken => 409,
            ApiError::RoleTypeSaveFailed => 500,
            ApiError::EmployeeUserLinked => 409,
            ApiError::EmployeeSaveFailed => 500,
        }
    }

    /// Message of the refusal.
    pub open spec fn spec_message(self) -> Seq<char> {
        match self {
            ApiError::PeriodStartNotBoundary => "period_start must be the 1st or the 16th of a month"@,
            ApiError::PeriodEndNotBoundary => "period_end must match the biweekly period implied by period_start (15th, or the last day of the month)"@,
            ApiError::AgentsNotArray => "agents must be a JSON array"@,
            ApiError::AgentNotObject => "Each agent must be an object"@,
            ApiError::AgentIdRequired => "Agent id is required"@,
            ApiError::AgentNameRequired => "Agent name is required"@,
            ApiError::AgentRoleRequired => "Agent role is required"@,
            ApiError::InvalidRebalanceStrategy => "rebalance_strategy must be even_split or catch_up"@,
            ApiError::SplitMonthsOutOfRange => "Split months must be between 1 and 120"@,
            ApiError::EffectivePeriodStartFormat => "effective_period_start must be YYYY-MM-DD"@,
            ApiError::EffectivePeriodStartNotBoundary => "effective_period_start must be the 1st or the 16th of a month"@,
            ApiError::EffectivePeriodStartTooEarly => "effective_period_start cannot be earlier than the first selectable period this month"@,
            ApiError::SplitUnchanged => "Split months and rebalance strategy are unchanged at the chosen effective date"@,
            ApiError::SplitMustDiffer => "New split months must differ from what would be active at the chosen effective date"@,
            ApiError::InvalidPaymentMethod => "Invalid payment method"@,
            ApiError::ReferenceOrTransactionRequired => "Reference / transaction number is required"@,
            ApiError::BankNameRequired => "Bank name is required"@,
            ApiError::ReferenceNumberRequired => "Reference number is required"@,
            ApiError::PaymentLabelRequired => "Payment label is required"@,
            ApiError::BuyerNamePartsRequired => "Last name and first name are required"@,
            ApiError::InvalidBuyerName => "Invalid buyer name"@,
            ApiError::BuyerAccountRequired => "Buyer account is required"@,
            ApiError::BlockAndLotRequired => "Block and lot are required"@,
            ApiError::InvalidPaymentPlan => "Invalid payment plan"@,
            ApiError::NegativeNumericField => "Numeric fields must not be negative"@,
            ApiError::DueDayOutOfRange => "Due day must be between 1 and 31"@,
            ApiError::AgentSplitMonthsOutOfRange => "Agent commission split months must be between 1 and 120"@,
            ApiError::FirstInstallmentNotPositive => "First installment amount must be greater than zero"@,
            ApiError::FirstInstallmentNeedsTwoMonths => "First installment amount requires at least 2 installment months"@,
            ApiError::FirstInstallmentExceedsBalance => "First installment amount cannot exceed the financed balance"@,
            ApiError::PromoPriceNotPositive => "Promo TCP must be greater than zero"@,
            ApiError::PromoPriceAboveCatalog => "Promo TCP cannot exceed catalog TCP"@,
            ApiError::BuyerAccountNotFound => "Buyer account not found"@,
            ApiError::BuyerAccountNotAllowed => "Selected account cannot be used as a buyer"@,
            ApiError::PaymentAmountNotPositive => "Payment amount must be positive"@,
            ApiError::MonthsCoveredNegative => "Months covered must not be negative"@,
            ApiError::NoContractIds => "No contract ids provided"@,
            ApiError::TooManyContractIds => "Cannot delete more than 100 contracts at once"@,
            ApiError::ContractsNotInProject => "One or more contracts were not found in this project"@,
            ApiError::NameRequired => "name is required"@,
            ApiError::InvalidEmployeePosition => "Invalid position — add it under Positions first"@,
            ApiError::EmployeeStatusInvalid => "status must be Active or Inactive"@,
            ApiError::RestDaysOutOfRange => "rest_days values must be between 0 (Sunday) and 6 (Saturday)"@,
            ApiError::PlanStartDateFormat => "start_date must be YYYY-MM-DD"@,
            ApiError::PlanEndDateRequired => "end_date is required for training"@,
            ApiError::PlanEndDateFormat => "end_date must be YYYY-MM-DD"@,
            ApiError::PlanEndBeforeStart => "end_date must be on or after start_date"@,
            ApiError::TrainingFeeNotPositive => "training_fee must be a positive number"@,
            ApiError::MonthlyAmountNotPositive => "monthly_amount must be a positive number"@,
            ApiError::InvalidScheduleType => "schedule_type must be weekly, semimonthly, or monthly"@,
            ApiError::InvalidPlanKind => "kind must be training or regular"@,
            ApiError::AmountNotPositive => "amount must be a positive number"@,
            ApiError::PeriodStartFormat => "period_start must be YYYY-MM-DD"@,
            ApiError::PeriodEndFormat => "period_end must be YYYY-MM-DD"@,
            ApiError::PeriodEndBeforeStart => "period_end must be on or after period_start"@,
            ApiError::PaidAtFormat => "paid_at must be YYYY-MM-DD"@,
            ApiError::InvalidLabel => "Invalid label"@,
            ApiError::LabelReserved => "That label is reserved for a fixed system role"@,
            ApiError::BasePercentOutOfRange => "Base commission percent must be between 0 and 100"@,
            ApiError::DirectSalePoolOutOfRange => "Direct-sale pool percent must be between 0 and 100"@,
            ApiError::PortalPathInvalid => "Portal path must be lowercase letters/digits only"@,
            ApiError::PortalPathReserved => "That portal path is reserved"@,
            ApiError::RoleTypeInUse => "Cannot delete a role while roster members are assigned to it"@,
            ApiError::RoleTypeNotFound => "Role type not found"@,
            ApiError::InvalidRole => "Invalid role"@,
            ApiError::InvalidCode => "Invalid code"@,
            ApiError::PrcLicenseTooLong => "PRC license number too long"@,
            ApiError::CommissionRateOutOfRange => "Commission rate must be between 0 and 100"@,
            ApiError::InvalidStatus => "Invalid status"@,
            ApiError::BrokerOnlyForAgent => "Only an Agent can report to a broker"@,
            ApiError::SelfReporting => "A roster entry cannot report to itself"@,
            ApiError::UserAlreadyOnRoster => "This user already has a roster role"@,
            ApiError::RosterCodeTaken => "That code already exists"@,
            ApiError::RosterValueTaken => "That value already exists"@,
            ApiError::RosterReferenceMissing => "Referenced user or broker not found"@,
            ApiError::RosterSaveFailed => "Failed to save roster entry"@,
            ApiError::InvalidBlock => "Invalid block"@,
            ApiError::InvalidLot => "Invalid lot"@,
            ApiError::InvalidLotType => "Invalid lot type"@,
            ApiError::InvalidArea => "Invalid area"@,
            ApiError::InvalidRate => "Invalid rate"@,
            ApiError::OwnerBuyerTooLong => "Owner/buyer name too long"@,
            ApiError::LotExists => "That block/lot already exists for this project"@,
            ApiError::InvalidCompanyName => "Invalid company name"@,
            ApiError::OfficeAddressTooLong => "Office address too long"@,
            ApiError::InvalidCurrency => "Invalid currency"@,
            ApiError::InvalidTimezone => "Invalid timezone"@,
            ApiError::InvalidProjectName => "Invalid project name"@,
            ApiError::PositionExists => "That position already exists"@,
            ApiError::PositionInUse => "Cannot delete a position while an employee is assigned to it"@,
            ApiError::ExpenseCategoryExists => "A category with this name already exists"@,
            ApiError::ExpenseCategoryMissing => "category_id does not exist"@,
            ApiError::PaidToRequired => "paid_to is required"@,
            ApiError::PercentOutOfRange => "Percent must be between 0 and 100"@,
            ApiError::CategoryLabelTaken => "A category with that label already exists on this project"@,
            ApiError::CategorySaveFailed => "Failed to save category"@,
            ApiError::CannotRenameAgentPool => "Cannot rename the agent-pool category"@,
            ApiError::AgentPoolBelowUplines => "Agent-pool percent can't be less than what the upline roles already carve out of it"@,
            ApiError::CannotDeleteAgentPool => "Cannot delete the agent-pool category"@,
            ApiError::UplineRatesExceedPool => "Upline role percents can't exceed the agent-pool category's percent"@,
            ApiError::FromDateFormat => "from must be YYYY-MM-DD"@,
            ApiError::ToDateFormat => "to must be YYYY-MM-DD"@,
            ApiError::SubjectRequired => "subject_agent_id is required"@,
            ApiError::InvalidCommissionStatus => "status must be not_yet, partial, pending, or paid"@,
            ApiError::PartialAmountInvalid => "partial_amount must be a non-negative number"@,
            ApiError::PartialPaidAtFormat => "partial_paid_at must be YYYY-MM-DD"@,
            ApiError::RowMetaKeysRequired => "subject_agent_id and row_key are required"@,
            ApiError::InvalidOtherFlag => "other_flag must be none, half, or full"@,
            ApiError::InvalidOverrideStatus => "status must be one of: (blank), Paid, Half, Hold"@,
            ApiError::OverrideMonthOutOfRange => "month must be 0-11"@,
            ApiError::ContractNotInProject => "Contract not found in this project"@,
            ApiError::ScheduleDateTaken => "An entry already exists for that effective date"@,
            ApiError::LastScheduleEntry => "Cannot delete the only remaining schedule entry"@,
            ApiError::UplineReserveStatus => "May only set Available or Reserved"@,
            ApiError::TitlingReserveStatus => "Titling Officer may only set Available or Reserved"@,
            ApiError::LotNotReservable => "Lot cannot be reserved in its current status"@,
            ApiError::NotAuthenticated => "Not authenticated"@,
            ApiError::SessionExpired => "Session expired or not found"@,
            ApiError::AdminRequired => "Admin access required"@,
            ApiError::AgentRequired => "Agent access required"@,
            ApiError::LeadBrokerRequired => "Lead Broker access required"@,
            ApiError::EmployeeRequired => "Employee access required"@,
            ApiError::TitlingOfficerRequired => "Titling Officer access required"@,
            ApiError::UnknownUplineRole => "Unknown upline role"@,
            ApiError::UplinePortalForbidden => "Access to this upline portal is not permitted for your role"@,
            ApiError::UnknownRole => "Unknown role"@,
            ApiError::LayoutProjectMismatch => "project_id must match the URL project"@,
            ApiError::LayoutVersion => "version must be 1"@,
            ApiError::LayoutBlocksNotArray => "blocks must be a JSON array"@,
            ApiError::LayoutSizeInvalid => "width and height must be positive finite numbers"@,
            ApiError::InvalidStoredLayout => "Invalid stored subdivision layout"@,
            ApiError::PositionSaveFailed => "Failed to save position"@,
            ApiError::RoleTypeTaken => "That label or portal path already exists"@,
            ApiError::RoleTypeSaveFailed => "Failed to save role type"@,
            ApiError::EmployeeUserLinked => "This user is already linked to another employee record"@,
            ApiError::EmployeeSaveFailed => "Failed to save employee"@,
        }
    }

    /// HTTP status code of the refusal.
    pub fn status(&self) -> (r: u16)
        ensures
            r == self.spec_status(),
    {
        match self {
            ApiError::PeriodStartNotBoundary => 422,
            ApiError::PeriodEndNotBoundary => 422,
            ApiError::AgentsNotArray => 422,
            ApiError::AgentNotObject => 422,
            ApiError::AgentIdRequired => 422,
            ApiError::AgentNameRequired => 422,
            ApiError::AgentRoleRequired => 422,
            ApiError::InvalidRebalanceStrategy => 422,
            ApiError::SplitMonthsOutOfRange => 422,
            ApiError::EffectivePeriodStartFormat => 422,
            ApiError::EffectivePeriodStartNotBoundary => 422,
            ApiError::EffectivePeriodStartTooEarly => 422,
            ApiError::SplitUnchanged => 422,
            ApiError::SplitMustDiffer => 422,
            ApiError::InvalidPaymentMethod => 422,
            ApiError::ReferenceOrTransactionRequired => 422,
            ApiError::BankNameRequired => 422,
            ApiError::ReferenceNumberRequired => 422,
            ApiError::PaymentLabelRequired => 422,
            ApiError::BuyerNamePartsRequired => 422,
            ApiError::InvalidBuyerName => 422,
            ApiError::BuyerAccountRequired => 422,
            ApiError::BlockAndLotRequired => 422,
            ApiError::InvalidPaymentPlan => 422,
            ApiError::NegativeNumericField => 422,
            ApiError::DueDayOutOfRange => 422,
            ApiError::AgentSplitMonthsOutOfRange => 422,
            ApiError::FirstInstallmentNotPositive => 422,
            ApiError::FirstInstallmentNeedsTwoMonths => 422,
            ApiError::FirstInstallmentExceedsBalance => 422,
            ApiError::PromoPriceNotPositive => 422,
            ApiError::PromoPriceAboveCatalog => 422,
            ApiError::BuyerAccountNotFound => 422,
            ApiError::BuyerAccountNotAllowed => 422,
            ApiError::PaymentAmountNotPositive => 422,
            ApiError::MonthsCoveredNegative => 422,
            ApiError::NoContractIds => 422,
            ApiError::TooManyContractIds => 422,
            ApiError::ContractsNotInProject => 404,
            ApiError::NameRequired => 422,
            ApiError::InvalidEmployeePosition => 422,
            ApiError::EmployeeStatusInvalid => 422,
            ApiError::RestDaysOutOfRange => 422,
            ApiError::PlanStartDateFormat => 422,
            ApiError::PlanEndDateRequired => 422,
            ApiError::PlanEndDateFormat => 422,
            ApiError::PlanEndBeforeStart => 422,
            ApiError::TrainingFeeNotPositive => 422,
            ApiError::MonthlyAmountNotPositive => 422,
            ApiError::InvalidScheduleType => 422,
            ApiError::InvalidPlanKind => 422,
            ApiError::AmountNotPositive => 422,
            ApiError::PeriodStartFormat => 422,
            ApiError::PeriodEndFormat => 422,
            ApiError::PeriodEndBeforeStart => 422,
            ApiError::PaidAtFormat => 422,
            ApiError::InvalidLabel => 422,
            ApiError::LabelReserved => 422,
            ApiError::BasePercentOutOfRange => 422,
            ApiError::DirectSalePoolOutOfRange => 422,
            ApiError::PortalPathInvalid => 422,
            ApiError::PortalPathReserved => 422,
            ApiError::RoleTypeInUse => 409,
            ApiError::RoleTypeNotFound => 404,
            ApiError::InvalidRole => 422,
            ApiError::InvalidCode => 422,
            ApiError::PrcLicenseTooLong => 422,
            ApiError::CommissionRateOutOfRange => 422,
            ApiError::InvalidStatus => 422,
            ApiError::BrokerOnlyForAgent => 422,
            ApiError::SelfReporting => 422,
            ApiError::UserAlreadyOnRoster => 409,
            ApiError::RosterCodeTaken => 409,
            ApiError::RosterValueTaken => 409,
            ApiError::RosterReferenceMissing => 422,
            ApiError::RosterSaveFailed => 500,
            ApiError::InvalidBlock => 422,
            ApiError::InvalidLot => 422,
            ApiError::InvalidLotType => 422,
            ApiError::InvalidArea => 422,
            ApiError::InvalidRate => 422,
            ApiError::OwnerBuyerTooLong => 422,
            ApiError::LotExists => 409,
            ApiError::InvalidCompanyName => 422,
            ApiError::OfficeAddressTooLong => 422,
            ApiError::InvalidCurrency => 422,
            ApiError::InvalidTimezone => 422,
            ApiError::InvalidProjectName => 422,
            ApiError::PositionExists => 409,
            ApiError::PositionInUse => 409,
            ApiError::ExpenseCategoryExists => 422,
            ApiError::ExpenseCategoryMissing => 422,
            ApiError::PaidToRequired => 422,
            ApiError::PercentOutOfRange => 422,
            ApiError::CategoryLabelTaken => 409,
            ApiError::CategorySaveFailed => 500,
            ApiError::CannotRenameAgentPool => 422,
            ApiError::AgentPoolBelowUplines => 422,
            ApiError::CannotDeleteAgentPool => 409,
            ApiError::UplineRatesExceedPool => 422,
            ApiError::FromDateFormat => 422,
            ApiError::ToDateFormat => 422,
            ApiError::SubjectRequired => 422,
            ApiError::InvalidCommissionStatus => 422,
            ApiError::PartialAmountInvalid => 422,
            ApiError::PartialPaidAtFormat => 422,
            ApiError::RowMetaKeysRequired => 422,
            ApiError::InvalidOtherFlag => 422,
            ApiError::InvalidOverrideStatus => 422,
            ApiError::OverrideMonthOutOfRange => 422,
            ApiError::ContractNotInProject => 404,
            ApiError::ScheduleDateTaken => 409,
            ApiError::LastScheduleEntry => 409,
            ApiError::UplineReserveStatus => 422,
            ApiError::TitlingReserveStatus => 422,
            ApiError::LotNotReservable => 409,
            ApiError::NotAuthenticated => 401,
            ApiError::SessionExpired => 401,
            ApiError::AdminRequired => 403,
            ApiError::AgentRequired => 403,
            ApiError::LeadBrokerRequired => 403,
            ApiError::EmployeeRequired => 403,
            ApiError::TitlingOfficerRequired => 403,
            ApiError::UnknownUplineRole => 404,
            ApiError::UplinePortalForbidden => 403,
            ApiError::UnknownRole => 404,
            ApiError::LayoutProjectMismatch => 422,
            ApiError::LayoutVersion => 422,
            ApiError::LayoutBlocksNotArray => 422,
            ApiError::LayoutSizeInvalid => 422,
            ApiError::InvalidStoredLayout => 500,
            ApiError::PositionSaveFailed => 500,
            ApiError::RoleTypeTaken => 409,
            ApiError::RoleTypeSaveFailed => 500,
            ApiError::EmployeeUserLinked => 409,
            ApiError::EmployeeSaveFailed => 500,
        }
    }

    /// Message of the refusal.
    pub fn message(&self) -> (r: &'static str)
        ensures
            r@ == self.spec_message(),
    {
        match self {
            ApiError::PeriodStartNotBoundary => "period_start must be the 1st or the 16th of a month",
            ApiError::PeriodEndNotBoundary => "period_end must match the biweekly period implied by period_start (15th, or the last day of the month)",
            ApiError::AgentsNotArray => "agents must be a JSON array",
            ApiError::AgentNotObject => "Each agent must be an object",
            ApiError::AgentIdRequired => "Agent id is required",
            ApiError::AgentNameRequired => "Agent name is required",
            ApiError::AgentRoleRequired => "Agent role is required",
            ApiError::InvalidRebalanceStrategy => "rebalance_strategy must be even_split or catch_up",
            ApiError::SplitMonthsOutOfRange => "Split months must be between 1 and 120",
            ApiError::EffectivePeriodStartFormat => "effective_period_start must be YYYY-MM-DD",
            ApiError::EffectivePeriodStartNotBoundary => "effective_period_start must be the 1st or the 16th of a month",
            ApiError::EffectivePeriodStartTooEarly => "effective_period_start cannot be earlier than the first selectable period this month",
            ApiError::SplitUnchanged => "Split months and rebalance strategy are unchanged at the chosen effective date",
            ApiError::SplitMustDiffer => "New split months must differ from what would be active at the chosen effective date",
            ApiError::InvalidPaymentMethod => "Invalid payment method",
            ApiError::ReferenceOrTransactionRequired => "Reference / transaction number is required",
            ApiError::BankNameRequired => "Bank name is required",
            ApiError::ReferenceNumberRequired => "Reference number is required",
            ApiError::PaymentLabelRequired => "Payment label is required",
            ApiError::BuyerNamePartsRequired => "Last name and first name are required",
            ApiError::InvalidBuyerName => "Invalid buyer name",
            ApiError::BuyerAccountRequired => "Buyer account is required",
            ApiError::BlockAndLotRequired => "Block and lot are required",
            ApiError::InvalidPaymentPlan => "Invalid payment plan",
            ApiError::NegativeNumericField => "Numeric fields must not be negative",
            ApiError::DueDayOutOfRange => "Due day must be between 1 and 31",
            ApiError::AgentSplitMonthsOutOfRange => "Agent commission split months must be between 1 and 120",
            ApiError::FirstInstallmentNotPositive => "First installment amount must be greater than zero",
            ApiError::FirstInstallmentNeedsTwoMonths => "First installment amount requires at least 2 installment months",
            ApiError::FirstInstallmentExceedsBalance => "First installment amount cannot exceed the financed balance",
            ApiError::PromoPriceNotPositive => "Promo TCP must be greater than zero",
            ApiError::PromoPriceAboveCatalog => "Promo TCP cannot exceed catalog TCP",
            ApiError::BuyerAccountNotFound => "Buyer account not found",
            ApiError::BuyerAccountNotAllowed => "Selected account cannot be used as a buyer",
            ApiError::PaymentAmountNotPositive => "Payment amount must be positive",
            ApiError::MonthsCoveredNegative => "Months covered must not be negative",
            ApiError::NoContractIds => "No contract ids provided",
            ApiError::TooManyContractIds => "Cannot delete more than 100 contracts at once",
            ApiError::ContractsNotInProject => "One or more contracts were not found in this project",
            ApiError::NameRequired => "name is required",
            ApiError::InvalidEmployeePosition => "Invalid position — add it under Positions first",
            ApiError::EmployeeStatusInvalid => "status must be Active or Inactive",
            ApiError::RestDaysOutOfRange => "rest_days values must be between 0 (Sunday) and 6 (Saturday)",
            ApiError::PlanStartDateFormat => "start_date must be YYYY-MM-DD",
            ApiError::PlanEndDateRequired => "end_date is required for training",
            ApiError::PlanEndDateFormat => "end_date must be YYYY-MM-DD",
            ApiError::PlanEndBeforeStart => "end_date must be on or after start_date",
            ApiError::TrainingFeeNotPositive => "training_fee must be a positive number",
            ApiError::MonthlyAmountNotPositive => "monthly_amount must be a positive number",
            ApiError::InvalidScheduleType => "schedule_type must be weekly, semimonthly, or monthly",
            ApiError::InvalidPlanKind => "kind must be training or regular",
            ApiError::AmountNotPositive => "amount must be a positive number",
            ApiError::PeriodStartFormat => "period_start must be YYYY-MM-DD",
            ApiError::PeriodEndFormat => "period_end must be YYYY-MM-DD",
            ApiError::PeriodEndBeforeStart => "period_end must be on or after period_start",
            ApiError::PaidAtFormat => "paid_at must be YYYY-MM-DD",
            ApiError::InvalidLabel => "Invalid label",
            ApiError::LabelReserved => "That label is reserved for a fixed system role",
            ApiError::BasePercentOutOfRange => "Base commission percent must be between 0 and 100",
            ApiError::DirectSalePoolOutOfRange => "Direct-sale pool percent must be between 0 and 100",
            ApiError::PortalPathInvalid => "Portal path must be lowercase letters/digits only",
            ApiError::PortalPathReserved => "That portal path is reserved",
            ApiError::RoleTypeInUse => "Cannot delete a role while roster members are assigned to it",
            ApiError::RoleTypeNotFound => "Role type not found",
            ApiError::InvalidRole => "Invalid role",
            ApiError::InvalidCode => "Invalid code",
            ApiError::PrcLicenseTooLong => "PRC license number too long",
            ApiError::CommissionRateOutOfRange => "Commission rate must be between 0 and 100",
            ApiError::InvalidStatus => "Invalid status",
            ApiError::BrokerOnlyForAgent => "Only an Agent can report to a broker",
            ApiError::SelfReporting => "A roster entry cannot report to itself",
            ApiError::UserAlreadyOnRoster => "This user already has a roster role",
            ApiError::RosterCodeTaken => "That code already exists",
            ApiError::RosterValueTaken => "That value already exists",
            ApiError::RosterReferenceMissing => "Referenced user or broker not found",
            ApiError::RosterSaveFailed => "Failed to save roster entry",
            ApiError::InvalidBlock => "Invalid block",
            ApiError::InvalidLot => "Invalid lot",
            ApiError::InvalidLotType => "Invalid lot type",
            ApiError::InvalidArea => "Invalid area",
            ApiError::InvalidRate => "Invalid rate",
            ApiError::OwnerBuyerTooLong => "Owner/buyer name too long",
            ApiError::LotExists => "That block/lot already exists for this project",
            ApiError::InvalidCompanyName => "Invalid company name",
            ApiError::OfficeAddressTooLong => "Office address too long",
            ApiError::InvalidCurrency => "Invalid currency",
            ApiError::InvalidTimezone => "Invalid timezone",
            ApiError::InvalidProjectName => "Invalid project name",
            ApiError::PositionExists => "That position already exists",
            ApiError::PositionInUse => "Cannot delete a position while an employee is assigned to it",
            ApiError::ExpenseCategoryExists => "A category with this name already exists",
            ApiError::ExpenseCategoryMissing => "category_id does not exist",
            ApiError::PaidToRequired => "paid_to is required",
            ApiError::PercentOutOfRange => "Percent must be between 0 and 100",
            ApiError::CategoryLabelTaken => "A category with that label already exists on this project",
            ApiError::CategorySaveFailed => "Failed to save category",
            ApiError::CannotRenameAgentPool => "Cannot rename the agent-pool category",
            ApiError::AgentPoolBelowUplines => "Agent-pool percent can't be less than what the upline roles already carve out of it",
            ApiError::CannotDeleteAgentPool => "Cannot delete the agent-pool category",
            ApiError::UplineRatesExceedPool => "Upline role percents can't exceed the agent-pool category's percent",
            ApiError::FromDateFormat => "from must be YYYY-MM-DD",
            ApiError::ToDateFormat => "to must be YYYY-MM-DD",
            ApiError::SubjectRequired => "subject_agent_id is required",
            ApiError::InvalidCommissionStatus => "status must be not_yet, partial, pending, or paid",
            ApiError::PartialAmountInvalid => "partial_amount must be a non-negative number",
            ApiError::PartialPaidAtFormat => "partial_paid_at must be YYYY-MM-DD",
            ApiError::RowMetaKeysRequired => "subject_agent_id and row_key are required",
            ApiError::InvalidOtherFlag => "other_flag must be none, half, or full",
            ApiError::InvalidOverrideStatus => "status must be one of: (blank), Paid, Half, Hold",
            ApiError::OverrideMonthOutOfRange => "month must be 0-11",
            ApiError::ContractNotInProject => "Contract not found in this project",
            ApiError::ScheduleDateTaken => "An entry already exists for that effective date",
            ApiError::LastScheduleEntry => "Cannot delete the only remaining schedule entry",
            ApiError::UplineReserveStatus => "May only set Available or Reserved",
            ApiError::TitlingReserveStatus => "Titling Officer may only set Available or Reserved",
            ApiError::LotNotReservable => "Lot cannot be reserved in its current status",
            ApiError::NotAuthenticated => "Not authenticated",
            ApiError::SessionExpired => "Session expired or not found",
            ApiError::AdminRequired => "Admin access required",
            ApiError::AgentRequired => "Agent access required",
            ApiError::LeadBrokerRequired => "Lead Broker access required",
            ApiError::EmployeeRequired => "Employee access required",
            ApiError::TitlingOfficerRequired => "Titling Officer access required",
            ApiError::UnknownUplineRole => "Unknown upline role",
            ApiError::UplinePortalForbidden => "Access to this upline portal is not permitted for your role",
            ApiError::UnknownRole => "Unknown role",
            ApiError::LayoutProjectMismatch => "project_id must match the URL project",
            ApiError::LayoutVersion => "version must be 1",
            ApiError::LayoutBlocksNotArray => "blocks must be a JSON array",
            ApiError::LayoutSizeInvalid => "width and height must be positive finite numbers",
            ApiError::InvalidStoredLayout => "Invalid stored subdivision layout",
            ApiError::PositionSaveFailed => "Failed to save position",
            ApiError::RoleTypeTaken => "That label or portal path already exists",
            ApiError::RoleTypeSaveFailed => "Failed to save role type",
            ApiError::EmployeeUserLinked => "This user is already linked to another employee record",
            ApiError::EmployeeSaveFailed => "Failed to save employee",
        }
    }
}

} // verus!
