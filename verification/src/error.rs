use vstd::prelude::*;

verus! {

/// An HTTP status, as a number.
#[derive(Debug, Clone, Copy, PartialEq, Eq, Structural)]
pub struct StatusCode(pub u16);

impl StatusCode {
    pub fn as_u16(self) -> (n: u16)
        ensures
            n == self.0,
    {
        self.0
    }
}

/// The machine-readable half of every error response.
#[derive(Debug, Clone, Copy, PartialEq, Eq, Structural)]
pub enum ErrorCode {
    InvalidRequest,
    ValidationFailed,
    IdempotencyKeyRequired,
    IdempotencyKeyInvalid,
    InvalidCursor,
    InvalidVersion,
    Unauthenticated,
    TokenExpired,
    TokenInvalid,
    Forbidden,
    RoleRequired,
    AccountSuspended,
    AccountWithdrawn,
    ConsentRequired,
    ReauthenticationRequired,
    OriginNotAllowed,
    StoreNotActive,
    NotFound,
    StoreNotFound,
    UserNotFound,
    CatalogItemNotFound,
    LoyaltyPolicyNotFound,
    TransactionNotFound,
    CouponNotFound,
    CampaignNotFound,
    ReservationNotFound,
    UnprocessableRequest,
    StoreNotReadyForReview,
    InvalidStateTransition,
    QrTokenInvalid,
    QrTokenExpired,
    NoActivePolicy,
    PolicyNotEditable,
    MinimumOrderNotMet,
    ItemNotEligible,
    DailyLimitExceeded,
    VoidWindowExpired,
    RequiresAdminReview,
    CampaignNotIssuing,
    CampaignPaused,
    CampaignSoldOut,
    CampaignNotEditable,
    QuantityBelowIssued,
    CouponNotAvailable,
    CouponNotYetUsable,
    CouponExpired,
    CouponOutsideUsageWindow,
    OrderAlreadyDiscounted,
    AudienceNotEligible,
    ApprovalSeparationRequired,
    WebhookSignatureInvalid,
    NotificationNotFound,
    CaseNotFound,
    RetentionPolicyNotFound,
    CaseReferenceRequired,
    LegalHoldActive,
    CohortTooSmall,
    RateLimited,
    SanctionAlreadyActive,
    Conflict,
    VersionConflict,
    IdempotencyKeyReused,
    IdempotencyRequestInProgress,
    StoreAlreadyExists,
    StoreSlugTaken,
    ReviewAlreadyPending,
    QrAlreadyUsed,
    DuplicateTransactionSuspected,
    PolicyAlreadyScheduled,
    PreviewExpired,
    ReservationExpired,
    ReservationAlreadyActive,
    ServiceUnavailable,
    DependencyUnavailable,
}

/// The wire spelling of a code.
pub open spec fn code_text(code: ErrorCode) -> Seq<char> {
    match code {
        ErrorCode::InvalidRequest => "INVALID_REQUEST"@,
        ErrorCode::ValidationFailed => "VALIDATION_FAILED"@,
        ErrorCode::IdempotencyKeyRequired => "IDEMPOTENCY_KEY_REQUIRED"@,
        ErrorCode::IdempotencyKeyInvalid => "IDEMPOTENCY_KEY_INVALID"@,
        ErrorCode::InvalidCursor => "INVALID_CURSOR"@,
        ErrorCode::InvalidVersion => "INVALID_VERSION"@,
        ErrorCode::Unauthenticated => "UNAUTHENTICATED"@,
        ErrorCode::TokenExpired => "TOKEN_EXPIRED"@,
        ErrorCode::TokenInvalid => "TOKEN_INVALID"@,
        ErrorCode::Forbidden => "FORBIDDEN"@,
        ErrorCode::RoleRequired => "ROLE_REQUIRED"@,
        ErrorCode::AccountSuspended => "ACCOUNT_SUSPENDED"@,
        ErrorCode::AccountWithdrawn => "ACCOUNT_WITHDRAWN"@,
        ErrorCode::ConsentRequired => "CONSENT_REQUIRED"@,
        ErrorCode::ReauthenticationRequired => "REAUTHENTICATION_REQUIRED"@,
        ErrorCode::OriginNotAllowed => "ORIGIN_NOT_ALLOWED"@,
        ErrorCode::StoreNotActive => "STORE_NOT_ACTIVE"@,
        ErrorCode::NotFound => "NOT_FOUND"@,
        ErrorCode::StoreNotFound => "STORE_NOT_FOUND"@,
        ErrorCode::UserNotFound => "USER_NOT_FOUND"@,
        ErrorCode::CatalogItemNotFound => "CATALOG_ITEM_NOT_FOUND"@,
        ErrorCode::LoyaltyPolicyNotFound => "LOYALTY_POLICY_NOT_FOUND"@,
        ErrorCode::TransactionNotFound => "TRANSACTION_NOT_FOUND"@,
        ErrorCode::CouponNotFound => "COUPON_NOT_FOUND"@,
        ErrorCode::CampaignNotFound => "CAMPAIGN_NOT_FOUND"@,
        ErrorCode::ReservationNotFound => "RESERVATION_NOT_FOUND"@,
        ErrorCode::UnprocessableRequest => "UNPROCESSABLE_REQUEST"@,
        ErrorCode::StoreNotReadyForReview => "STORE_NOT_READY_FOR_REVIEW"@,
        ErrorCode::InvalidStateTransition => "INVALID_STATE_TRANSITION"@,
        ErrorCode::QrTokenInvalid => "QR_TOKEN_INVALID"@,
        ErrorCode::QrTokenExpired => "QR_TOKEN_EXPIRED"@,
        ErrorCode::NoActivePolicy => "NO_ACTIVE_POLICY"@,
        ErrorCode::PolicyNotEditable => "POLICY_NOT_EDITABLE"@,
        ErrorCode::MinimumOrderNotMet => "MINIMUM_ORDER_NOT_MET"@,
        ErrorCode::ItemNotEligible => "ITEM_NOT_ELIGIBLE"@,
        ErrorCode::DailyLimitExceeded => "DAILY_LIMIT_EXCEEDED"@,
        ErrorCode::VoidWindowExpired => "VOID_WINDOW_EXPIRED"@,
        ErrorCode::RequiresAdminReview => "REQUIRES_ADMIN_REVIEW"@,
        ErrorCode::CampaignNotIssuing => "CAMPAIGN_NOT_ISSUING"@,
        ErrorCode::CampaignPaused => "CAMPAIGN_PAUSED"@,
        ErrorCode::CampaignSoldOut => "CAMPAIGN_SOLD_OUT"@,
        ErrorCode::CampaignNotEditable => "CAMPAIGN_NOT_EDITABLE"@,
        ErrorCode::QuantityBelowIssued => "QUANTITY_BELOW_ISSUED"@,
        ErrorCode::CouponNotAvailable => "COUPON_NOT_AVAILABLE"@,
        ErrorCode::CouponNotYetUsable => "COUPON_NOT_YET_USABLE"@,
        ErrorCode::CouponExpired => "COUPON_EXPIRED"@,
        ErrorCode::CouponOutsideUsageWindow => "COUPON_OUTSIDE_USAGE_WINDOW"@,
        ErrorCode::OrderAlreadyDiscounted => "ORDER_ALREADY_DISCOUNTED"@,
        ErrorCode::AudienceNotEligible => "AUDIENCE_NOT_ELIGIBLE"@,
        ErrorCode::ApprovalSeparationRequired => "APPROVAL_SEPARATION_REQUIRED"@,
        ErrorCode::WebhookSignatureInvalid => "WEBHOOK_SIGNATURE_INVALID"@,
        ErrorCode::NotificationNotFound => "NOTIFICATION_NOT_FOUND"@,
        ErrorCode::CaseNotFound => "CASE_NOT_FOUND"@,
        ErrorCode::RetentionPolicyNotFound => "RETENTION_POLICY_NOT_FOUND"@,
        ErrorCode::CaseReferenceRequired => "CASE_REFERENCE_REQUIRED"@,
        ErrorCode::LegalHoldActive => "LEGAL_HOLD_ACTIVE"@,
        ErrorCode::CohortTooSmall => "COHORT_TOO_SMALL"@,
        ErrorCode::RateLimited => "RATE_LIMITED"@,
        ErrorCode::SanctionAlreadyActive => "SANCTION_ALREADY_ACTIVE"@,
        ErrorCode::Conflict => "CONFLICT"@,
        ErrorCode::VersionConflict => "VERSION_CONFLICT"@,
        ErrorCode::IdempotencyKeyReused => "IDEMPOTENCY_KEY_REUSED"@,
        ErrorCode::IdempotencyRequestInProgress => "IDEMPOTENCY_REQUEST_IN_PROGRESS"@,
        ErrorCode::StoreAlreadyExists => "STORE_ALREADY_EXISTS"@,
        ErrorCode::StoreSlugTaken => "STORE_SLUG_TAKEN"@,
        ErrorCode::ReviewAlreadyPending => "REVIEW_ALREADY_PENDING"@,
        ErrorCode::QrAlreadyUsed => "QR_ALREADY_USED"@,
        ErrorCode::DuplicateTransactionSuspected => "DUPLICATE_TRANSACTION_SUSPECTED"@,
        ErrorCode::PolicyAlreadyScheduled => "POLICY_ALREADY_SCHEDULED"@,
        ErrorCode::PreviewExpired => "PREVIEW_EXPIRED"@,
        ErrorCode::ReservationExpired => "RESERVATION_EXPIRED"@,
        ErrorCode::ReservationAlreadyActive => "RESERVATION_ALREADY_ACTIVE"@,
        ErrorCode::ServiceUnavailable => "SERVICE_UNAVAILABLE"@,
        ErrorCode::DependencyUnavailable => "DEPENDENCY_UNAVAILABLE"@,
    }
}

/// The HTTP status a code is answered with.
pub open spec fn code_status(code: ErrorCode) -> u16 {
    match code {
        ErrorCode::InvalidRequest
        | ErrorCode::IdempotencyKeyRequired
        | ErrorCode::IdempotencyKeyInvalid
        | ErrorCode::InvalidCursor
        | ErrorCode::InvalidVersion
        | ErrorCode::CaseReferenceRequired => 400,
        ErrorCode::ValidationFailed
        | ErrorCode::UnprocessableRequest
        | ErrorCode::StoreNotReadyForReview
        | ErrorCode::QrTokenInvalid
        | ErrorCode::QrTokenExpired
        | ErrorCode::NoActivePolicy
        | ErrorCode::MinimumOrderNotMet
        | ErrorCode::ItemNotEligible
        | ErrorCode::DailyLimitExceeded
        | ErrorCode::VoidWindowExpired
        | ErrorCode::RequiresAdminReview
        | ErrorCode::CampaignNotIssuing
        | ErrorCode::CampaignPaused
        | ErrorCode::CampaignSoldOut
        | ErrorCode::QuantityBelowIssued
        | ErrorCode::CouponNotAvailable
        | ErrorCode::CouponNotYetUsable
        | ErrorCode::CouponExpired
        | ErrorCode::CouponOutsideUsageWindow
        | ErrorCode::OrderAlreadyDiscounted
        | ErrorCode::AudienceNotEligible
        | ErrorCode::CohortTooSmall => 422,
        ErrorCode::Unauthenticated
        | ErrorCode::TokenExpired
        | ErrorCode::TokenInvalid
        | ErrorCode::ReauthenticationRequired
        | ErrorCode::WebhookSignatureInvalid => 401,
        ErrorCode::Forbidden
        | ErrorCode::RoleRequired
        | ErrorCode::AccountSuspended
        | ErrorCode::AccountWithdrawn
        | ErrorCode::ConsentRequired
        | ErrorCode::OriginNotAllowed
        | ErrorCode::StoreNotActive
        | ErrorCode::ApprovalSeparationRequired => 403,
        ErrorCode::NotFound
        | ErrorCode::StoreNotFound
        | ErrorCode::UserNotFound
        | ErrorCode::CatalogItemNotFound
        | ErrorCode::LoyaltyPolicyNotFound
        | ErrorCode::TransactionNotFound
        | ErrorCode::CouponNotFound
        | ErrorCode::CampaignNotFound
        | ErrorCode::ReservationNotFound
        | ErrorCode::NotificationNotFound
        | ErrorCode::CaseNotFound
        | ErrorCode::RetentionPolicyNotFound => 404,
        ErrorCode::InvalidStateTransition
        | ErrorCode::PolicyNotEditable
        | ErrorCode::CampaignNotEditable
        | ErrorCode::LegalHoldActive
        | ErrorCode::SanctionAlreadyActive
        | ErrorCode::Conflict
        | ErrorCode::VersionConflict
        | ErrorCode::IdempotencyKeyReused
        | ErrorCode::IdempotencyRequestInProgress
        | ErrorCode::StoreAlreadyExists
        | ErrorCode::StoreSlugTaken
        | ErrorCode::ReviewAlreadyPending
        | ErrorCode::QrAlreadyUsed
        | ErrorCode::DuplicateTransactionSuspected
        | ErrorCode::PolicyAlreadyScheduled
        | ErrorCode::PreviewExpired
        | ErrorCode::ReservationExpired
        | ErrorCode::ReservationAlreadyActive => 409,
        ErrorCode::RateLimited => 429,
        ErrorCode::ServiceUnavailable
        | ErrorCode::DependencyUnavailable => 503,
    }
}

/// Whether a client may usefully send the same request again.
pub open spec fn code_retryable(code: ErrorCode) -> bool {
    match code {
        ErrorCode::RateLimited
        | ErrorCode::Conflict
        | ErrorCode::VersionConflict
        | ErrorCode::IdempotencyRequestInProgress
        | ErrorCode::ServiceUnavailable
        | ErrorCode::DependencyUnavailable => true,
        _ => false,
    }
}

impl ErrorCode {
    pub fn as_str(self) -> (s: &'static str)
        ensures
            s@ == code_text(self),
    {
        match self {
            ErrorCode::InvalidRequest => "INVALID_REQUEST",
            ErrorCode::ValidationFailed => "VALIDATION_FAILED",
            ErrorCode::IdempotencyKeyRequired => "IDEMPOTENCY_KEY_REQUIRED",
            ErrorCode::IdempotencyKeyInvalid => "IDEMPOTENCY_KEY_INVALID",
            ErrorCode::InvalidCursor => "INVALID_CURSOR",
            ErrorCode::InvalidVersion => "INVALID_VERSION",
            ErrorCode::Unauthenticated => "UNAUTHENTICATED",
            ErrorCode::TokenExpired => "TOKEN_EXPIRED",
            ErrorCode::TokenInvalid => "TOKEN_INVALID",
            ErrorCode::Forbidden => "FORBIDDEN",
            ErrorCode::RoleRequired => "ROLE_REQUIRED",
            ErrorCode::AccountSuspended => "ACCOUNT_SUSPENDED",
            ErrorCode::AccountWithdrawn => "ACCOUNT_WITHDRAWN",
            ErrorCode::ConsentRequired => "CONSENT_REQUIRED",
            ErrorCode::ReauthenticationRequired => "REAUTHENTICATION_REQUIRED",
            ErrorCode::OriginNotAllowed => "ORIGIN_NOT_ALLOWED",
            ErrorCode::StoreNotActive => "STORE_NOT_ACTIVE",
            ErrorCode::NotFound => "NOT_FOUND",
            ErrorCode::StoreNotFound => "STORE_NOT_FOUND",
            ErrorCode::UserNotFound => "USER_NOT_FOUND",
            ErrorCode::CatalogItemNotFound => "CATALOG_ITEM_NOT_FOUND",
            ErrorCode::LoyaltyPolicyNotFound => "LOYALTY_POLICY_NOT_FOUND",
            ErrorCode::TransactionNotFound => "TRANSACTION_NOT_FOUND",
            ErrorCode::CouponNotFound => "COUPON_NOT_FOUND",
            ErrorCode::CampaignNotFound => "CAMPAIGN_NOT_FOUND",
            ErrorCode::ReservationNotFound => "RESERVATION_NOT_FOUND",
            ErrorCode::UnprocessableRequest => "UNPROCESSABLE_REQUEST",
            ErrorCode::StoreNotReadyForReview => "STORE_NOT_READY_FOR_REVIEW",
            ErrorCode::InvalidStateTransition => "INVALID_STATE_TRANSITION",
            ErrorCode::QrTokenInvalid => "QR_TOKEN_INVALID",
            ErrorCode::QrTokenExpired => "QR_TOKEN_EXPIRED",
            ErrorCode::NoActivePolicy => "NO_ACTIVE_POLICY",
            ErrorCode::PolicyNotEditable => "POLICY_NOT_EDITABLE",
            ErrorCode::MinimumOrderNotMet => "MINIMUM_ORDER_NOT_MET",
            ErrorCode::ItemNotEligible => "ITEM_NOT_ELIGIBLE",
            ErrorCode::DailyLimitExceeded => "DAILY_LIMIT_EXCEEDED",
            ErrorCode::VoidWindowExpired => "VOID_WINDOW_EXPIRED",
            ErrorCode::RequiresAdminReview => "REQUIRES_ADMIN_REVIEW",
            ErrorCode::CampaignNotIssuing => "CAMPAIGN_NOT_ISSUING",
            ErrorCode::CampaignPaused => "CAMPAIGN_PAUSED",
            ErrorCode::CampaignSoldOut => "CAMPAIGN_SOLD_OUT",
            ErrorCode::CampaignNotEditable => "CAMPAIGN_NOT_EDITABLE",
            ErrorCode::QuantityBelowIssued => "QUANTITY_BELOW_ISSUED",
            ErrorCode::CouponNotAvailable => "COUPON_NOT_AVAILABLE",
            ErrorCode::CouponNotYetUsable => "COUPON_NOT_YET_USABLE",
            ErrorCode::CouponExpired => "COUPON_EXPIRED",
            ErrorCode::CouponOutsideUsageWindow => "COUPON_OUTSIDE_USAGE_WINDOW",
            ErrorCode::OrderAlreadyDiscounted => "ORDER_ALREADY_DISCOUNTED",
            ErrorCode::AudienceNotEligible => "AUDIENCE_NOT_ELIGIBLE",
            ErrorCode::ApprovalSeparationRequired => "APPROVAL_SEPARATION_REQUIRED",
            ErrorCode::WebhookSignatureInvalid => "WEBHOOK_SIGNATURE_INVALID",
            ErrorCode::NotificationNotFound => "NOTIFICATION_NOT_FOUND",
            ErrorCode::CaseNotFound => "CASE_NOT_FOUND",
            ErrorCode::RetentionPolicyNotFound => "RETENTION_POLICY_NOT_FOUND",
            ErrorCode::CaseReferenceRequired => "CASE_REFERENCE_REQUIRED",
            ErrorCode::LegalHoldActive => "LEGAL_HOLD_ACTIVE",
            ErrorCode::CohortTooSmall => "COHORT_TOO_SMALL",
            ErrorCode::RateLimited => "RATE_LIMITED",
            ErrorCode::SanctionAlreadyActive => "SANCTION_ALREADY_ACTIVE",
            ErrorCode::Conflict => "CONFLICT",
            ErrorCode::VersionConflict => "VERSION_CONFLICT",
            ErrorCode::IdempotencyKeyReused => "IDEMPOTENCY_KEY_REUSED",
            ErrorCode::IdempotencyRequestInProgress => "IDEMPOTENCY_REQUEST_IN_PROGRESS",
            ErrorCode::StoreAlreadyExists => "STORE_ALREADY_EXISTS",
            ErrorCode::StoreSlugTaken => "STORE_SLUG_TAKEN",
            ErrorCode::ReviewAlreadyPending => "REVIEW_ALREADY_PENDING",
            ErrorCode::QrAlreadyUsed => "QR_ALREADY_USED",
            ErrorCode::DuplicateTransactionSuspected => "DUPLICATE_TRANSACTION_SUSPECTED",
            ErrorCode::PolicyAlreadyScheduled => "POLICY_ALREADY_SCHEDULED",
            ErrorCode::PreviewExpired => "PREVIEW_EXPIRED",
            ErrorCode::ReservationExpired => "RESERVATION_EXPIRED",
            ErrorCode::ReservationAlreadyActive => "RESERVATION_ALREADY_ACTIVE",
            ErrorCode::ServiceUnavailable => "SERVICE_UNAVAILABLE",
            ErrorCode::DependencyUnavailable => "DEPENDENCY_UNAVAILABLE",
        }
    }

    pub fn status(self) -> (s: StatusCode)
        ensures
            s.0 == code_status(self),
    {
        match self {
            ErrorCode::InvalidRequest
            | ErrorCode::IdempotencyKeyRequired
            | ErrorCode::IdempotencyKeyInvalid
            | ErrorCode::InvalidCursor
            | ErrorCode::InvalidVersion
            | ErrorCode::CaseReferenceRequired => StatusCode(400),
            ErrorCode::ValidationFailed
            | ErrorCode::UnprocessableRequest
            | ErrorCode::StoreNotReadyForReview
            | ErrorCode::QrTokenInvalid
            | ErrorCode::QrTokenExpired
            | ErrorCode::NoActivePolicy
            | ErrorCode::MinimumOrderNotMet
            | ErrorCode::ItemNotEligible
            | ErrorCode::DailyLimitExceeded
            | ErrorCode::VoidWindowExpired
            | ErrorCode::RequiresAdminReview
            | ErrorCode::CampaignNotIssuing
            | ErrorCode::CampaignPaused
            | ErrorCode::CampaignSoldOut
            | ErrorCode::QuantityBelowIssued
            | ErrorCode::CouponNotAvailable
            | ErrorCode::CouponNotYetUsable
            | ErrorCode::CouponExpired
            | ErrorCode::CouponOutsideUsageWindow
            | ErrorCode::OrderAlreadyDiscounted
            | ErrorCode::AudienceNotEligible
            | ErrorCode::CohortTooSmall => StatusCode(422),
            ErrorCode::Unauthenticated
            | ErrorCode::TokenExpired
            | ErrorCode::TokenInvalid
            | ErrorCode::ReauthenticationRequired
            | ErrorCode::WebhookSignatureInvalid => StatusCode(401),
            ErrorCode::Forbidden
            | ErrorCode::RoleRequired
            | ErrorCode::AccountSuspended
            | ErrorCode::AccountWithdrawn
            | ErrorCode::ConsentRequired
            | ErrorCode::OriginNotAllowed
            | ErrorCode::StoreNotActive
            | ErrorCode::ApprovalSeparationRequired => StatusCode(403),
            ErrorCode::NotFound
            | ErrorCode::StoreNotFound
            | ErrorCode::UserNotFound
            | ErrorCode::CatalogItemNotFound
            | ErrorCode::LoyaltyPolicyNotFound
            | ErrorCode::TransactionNotFound
            | ErrorCode::CouponNotFound
            | ErrorCode::CampaignNotFound
            | ErrorCode::ReservationNotFound
            | ErrorCode::NotificationNotFound
            | ErrorCode::CaseNotFound
            | ErrorCode::RetentionPolicyNotFound => StatusCode(404),
            ErrorCode::InvalidStateTransition
            | ErrorCode::PolicyNotEditable
            | ErrorCode::CampaignNotEditable
            | ErrorCode::LegalHoldActive
            | ErrorCode::SanctionAlreadyActive
            | ErrorCode::Conflict
            | ErrorCode::VersionConflict
            | ErrorCode::IdempotencyKeyReused
            | ErrorCode::IdempotencyRequestInProgress
            | ErrorCode::StoreAlreadyExists
            | ErrorCode::StoreSlugTaken
            | ErrorCode::ReviewAlreadyPending
            | ErrorCode::QrAlreadyUsed
            | ErrorCode::DuplicateTransactionSuspected
            | ErrorCode::PolicyAlreadyScheduled
            | ErrorCode::PreviewExpired
            | ErrorCode::ReservationExpired
            | ErrorCode::ReservationAlreadyActive => StatusCode(409),
            ErrorCode::RateLimited => StatusCode(429),
            ErrorCode::ServiceUnavailable
            | ErrorCode::DependencyUnavailable => StatusCode(503),
        }
    }

    pub fn retryable(self) -> (r: bool)
        ensures
            r == code_retryable(self),
    {
        match self {
            ErrorCode::RateLimited
            | ErrorCode::Conflict
            | ErrorCode::VersionConflict
            | ErrorCode::IdempotencyRequestInProgress
            | ErrorCode::ServiceUnavailable
            | ErrorCode::DependencyUnavailable => true,
            _ => false,
        }
    }
}
/// A field error as `(field, code, message)`.
pub open spec fn field_view(e: FieldError) -> (Seq<char>, Seq<char>, Seq<char>) {
    (e.field@, e.code@, e.message@)
}

/// The field errors, each as `(field, code, message)`.
pub open spec fn fields_view(es: Seq<FieldError>) -> Seq<(Seq<char>, Seq<char>, Seq<char>)> {
    es.map_values(|e: FieldError| field_view(e))
}

/// One rejected input field.
#[derive(Debug, Clone, PartialEq, Eq)]
pub struct FieldError {
    pub field: String,
    pub code: String,
    pub message: String,
}

impl FieldError {
    pub fn new(field: &str, code: &str, message: &str) -> (e: FieldError)
        ensures
            e.field@ == field@,
            e.code@ == code@,
            e.message@ == message@,
    {
        FieldError { field: field.to_string(), code: code.to_string(), message: message.to_string() }
    }
}

/// An error as the API reports it: a code, the words shown to the user, what the logs
/// should say, and the fields at fault.
#[derive(Debug, Clone)]
pub struct ApiError {
    pub code: ErrorCode,
    pub message: String,
    pub internal: Option<String>,
    pub field_errors: Vec<FieldError>,
}

impl ApiError {
    /// An error carrying nothing but its code; the message is the code's own spelling.
    pub fn new(code: ErrorCode) -> (e: ApiError)
        ensures
            e.code == code,
            e.message@ == code_text(code),
            e.internal is None,
            e.field_errors@.len() == 0,
    {
        ApiError { code, message: code.as_str().to_string(), internal: None, field_errors: Vec::new() }
    }

    pub fn with_message(code: ErrorCode, message: &str) -> (e: ApiError)
        ensures
            e.code == code,
            e.message@ == message@,
            e.internal is None,
            e.field_errors@.len() == 0,
    {
        ApiError { code, message: message.to_string(), internal: None, field_errors: Vec::new() }
    }

    pub fn with_fields(code: ErrorCode, fields: Vec<FieldError>) -> (e: ApiError)
        ensures
            e.code == code,
            e.message@ == code_text(code),
            e.internal is None,
            e.field_errors@ == fields@,
    {
        ApiError { code, message: code.as_str().to_string(), internal: None, field_errors: fields }
    }

    /// The same error with a note for the logs.
    pub fn internal(self, detail: &str) -> (e: ApiError)
        ensures
            e.code == self.code,
            e.message == self.message,
            e.internal matches Some(d) && d@ == detail@,
            e.field_errors == self.field_errors,
    {
        ApiError { internal: Some(detail.to_string()), ..self }
    }

    pub fn not_found() -> (e: ApiError)
        ensures
            e.code == ErrorCode::NotFound,
            e.field_errors@.len() == 0,
    {
        ApiError::new(ErrorCode::NotFound)
    }

    pub fn status(&self) -> (s: StatusCode)
        ensures
            s.0 == code_status(self.code),
    {
        self.code.status()
    }
}

} // verus!
