//! Payment disputes: who may file, see and change them, and how their status
//! may move.
use crate::api_error::ApiError;
use crate::ids::id_text;
use crate::ids::new_id;
use crate::ids::parse_id;
use crate::text::blank;
use crate::text::join2;
use crate::text::owned;
use crate::text::push_decimal;
use crate::text::push_decimal_i64;
use crate::text::same_text;
use vstd::prelude::*;
use vstd::string::*;

verus! {

/// How many disputes a list holds unless the caller asks otherwise.
pub const DEFAULT_LIMIT: i64 = 50;

/// Seconds for which a dispute is kept in the cache.
pub const DISPUTE_CACHE_SECONDS: u64 = 60;

/// How many disputes a list holds unless the caller asks otherwise.
pub fn default_limit() -> (r: i64)
    ensures
        r == DEFAULT_LIMIT,
{
    DEFAULT_LIMIT
}

/// The stages of a dispute.
#[derive(Clone, Copy, Debug, PartialEq, Eq, Structural)]
pub enum DisputeStatus {
    Open,
    UnderReview,
    ResolvedCustomer,
    ResolvedMerchant,
    Closed,
}

impl DisputeStatus {
    /// The text under which the stage is stored.
    pub open spec fn text(self) -> Seq<char> {
        match self {
            DisputeStatus::Open => "open"@,
            DisputeStatus::UnderReview => "under_review"@,
            DisputeStatus::ResolvedCustomer => "resolved_customer"@,
            DisputeStatus::ResolvedMerchant => "resolved_merchant"@,
            DisputeStatus::Closed => "closed"@,
        }
    }

    /// The text under which the stage is stored.
    pub fn as_str(&self) -> (r: &'static str)
        ensures
            r@ == self.text(),
    {
        match self {
            DisputeStatus::Open => "open",
            DisputeStatus::UnderReview => "under_review",
            DisputeStatus::ResolvedCustomer => "resolved_customer",
            DisputeStatus::ResolvedMerchant => "resolved_merchant",
            DisputeStatus::Closed => "closed",
        }
    }

    /// The stage that is stored under the text, if one is.
    pub fn parse(text: &str) -> (r: Option<DisputeStatus>)
        ensures
            match r {
                Some(status) => text@ == status.text(),
                None => forall|status: DisputeStatus| text@ != #[trigger] status.text(),
            },
    {
        if same_text(text, "open") {
            Some(DisputeStatus::Open)
        } else if same_text(text, "under_review") {
            Some(DisputeStatus::UnderReview)
        } else if same_text(text, "resolved_customer") {
            Some(DisputeStatus::ResolvedCustomer)
        } else if same_text(text, "resolved_merchant") {
            Some(DisputeStatus::ResolvedMerchant)
        } else if same_text(text, "closed") {
            Some(DisputeStatus::Closed)
        } else {
            None
        }
    }
}

/// A stored dispute. Times are in microseconds since 1970.
#[derive(Debug)]
pub struct PaymentDispute {
    pub id: String,
    pub payment_id: String,
    pub filed_by_user_id: String,
    pub reason: String,
    pub description: String,
    pub status: DisputeStatus,
    pub disputed_amount: i64,
    pub resolution_notes: Option<String>,
    pub resolved_by: Option<String>,
    pub created_at: i64,
    pub updated_at: i64,
}

/// A request to file a dispute.
#[derive(Debug)]
pub struct FileDisputeRequest {
    /// Reason category for the dispute.
    pub reason: String,
    /// Human-readable description of the issue.
    pub description: String,
    /// Amount being disputed; the full payment if omitted.
    pub disputed_amount: Option<i64>,
}

/// A request to move a dispute to another stage.
#[derive(Debug)]
pub struct UpdateDisputeStatusRequest {
    /// New status for the dispute.
    pub status: String,
    /// Resolution notes (required when resolving).
    pub resolution_notes: Option<String>,
}

/// A request to add evidence.
#[derive(Debug)]
pub struct AddEvidenceRequest {
    /// Type of evidence, such as a screenshot or a receipt.
    pub evidence_type: String,
    /// Description of the evidence.
    pub description: String,
    /// Where an uploaded file is found.
    pub file_url: Option<String>,
}

/// A page of disputes.
#[derive(Debug)]
pub struct DisputeListResponse {
    pub disputes: Vec<PaymentDispute>,
    pub total: i64,
    pub limit: i64,
    pub offset: i64,
}

/// Which disputes to list.
#[derive(Debug)]
pub struct DisputeQueryParams {
    pub status: Option<String>,
    pub payment_id: Option<String>,
    pub limit: i64,
    pub offset: i64,
}

/// Which part of a list to show.
#[derive(Clone, Copy, Debug)]
pub struct PaginationParams {
    pub limit: i64,
    pub offset: i64,
}

/// Who makes a request.
#[derive(Debug)]
pub struct Viewer {
    pub user_id: String,
    pub is_admin: bool,
}

/// What is stored of a payment.
#[derive(Debug)]
pub struct PaymentRecord {
    pub from_address: String,
    pub send_amount: i64,
    pub status: String,
}

/// A dispute to be stored.
#[derive(Debug)]
pub struct NewDispute {
    pub id: String,
    pub payment_id: String,
    pub filed_by_user_id: String,
    pub reason: String,
    pub description: String,
    pub status: DisputeStatus,
    pub disputed_amount: i64,
}

/// The changing part of a stored dispute.
#[derive(Debug)]
pub struct DisputeProgress {
    pub status: DisputeStatus,
    pub resolution_notes: Option<String>,
    pub resolved_by: Option<String>,
}

/// Evidence to be stored.
#[derive(Debug)]
pub struct NewEvidence {
    pub id: String,
    pub dispute_id: String,
    pub submitted_by_user_id: String,
    pub evidence_type: String,
    pub description: String,
    pub file_url: Option<String>,
}

/// Whether a dispute may move from one stage to another.
pub open spec fn transition_allowed(from: DisputeStatus, to: DisputeStatus) -> bool {
    match from {
        DisputeStatus::Open => to == DisputeStatus::UnderReview || to == DisputeStatus::Closed,
        DisputeStatus::UnderReview => to == DisputeStatus::ResolvedCustomer || to
            == DisputeStatus::ResolvedMerchant || to == DisputeStatus::Closed,
        _ => false,
    }
}

/// Whether the dispute is still being worked on.
pub open spec fn is_active(status: DisputeStatus) -> bool {
    status == DisputeStatus::Open || status == DisputeStatus::UnderReview
}

/// Whether the stage decides the dispute for one side.
pub open spec fn is_resolution(status: DisputeStatus) -> bool {
    status == DisputeStatus::ResolvedCustomer || status == DisputeStatus::ResolvedMerchant
}

/// Why a transition is refused, if it is.
pub open spec fn transition_error(from: DisputeStatus, to: DisputeStatus) -> Option<
    crate::api_error::ApiErrorModel,
> {
    if transition_allowed(from, to) {
        None
    } else {
        Some(
            crate::api_error::ApiErrorModel::BadRequest(
                "Invalid status transition from '"@ + from.text() + "' to '"@ + to.text() + "'"@,
            ),
        )
    }
}

/// Why a payment cannot be disputed by the user, if it cannot.
pub open spec fn payment_error(payment: Option<PaymentRecord>, user_id: Seq<char>) -> Option<
    crate::api_error::ApiErrorModel,
> {
    match payment {
        None => Some(crate::api_error::ApiErrorModel::NotFound("Payment not found"@)),
        Some(p) => if p.from_address@ != user_id {
            Some(
                crate::api_error::ApiErrorModel::Authorization(
                    "You are not authorised to dispute this payment"@,
                ),
            )
        } else if p.status@ != "completed"@ {
            Some(
                crate::api_error::ApiErrorModel::BadRequest(
                    "Only completed payments can be disputed"@,
                ),
            )
        } else {
            None
        },
    }
}

/// The amount that a request disputes.
pub open spec fn amount_in_dispute(requested: Option<i64>, full: i64) -> i64 {
    match requested {
        Some(amount) => amount,
        None => full,
    }
}

/// Why a dispute cannot be filed, if it cannot.
pub open spec fn filing_error(
    payment: Option<PaymentRecord>,
    user_id: Seq<char>,
    active_dispute: bool,
    requested: Option<i64>,
) -> Option<crate::api_error::ApiErrorModel> {
    match payment_error(payment, user_id) {
        Some(e) => Some(e),
        None => {
            let full = payment->0.send_amount;
            let amount = amount_in_dispute(requested, full);
            if active_dispute {
                Some(
                    crate::api_error::ApiErrorModel::Conflict(
                        "An active dispute already exists for this payment"@,
                    ),
                )
            } else if amount <= 0 || amount > full {
                Some(
                    crate::api_error::ApiErrorModel::Validation(
                        "disputed_amount must be between 1 and "@ + crate::text::decimal_int(
                            full as int,
                        ) + " (the full payment amount)"@,
                    ),
                )
            } else {
                None
            }
        },
    }
}

/// Why an update is refused, if it is.
pub open spec fn update_error(
    current: Option<DisputeProgress>,
    new_status: DisputeStatus,
    notes: Option<String>,
) -> Option<crate::api_error::ApiErrorModel> {
    match current {
        None => Some(crate::api_error::ApiErrorModel::NotFound("Dispute not found"@)),
        Some(c) => match transition_error(c.status, new_status) {
            Some(e) => Some(e),
            None => if is_resolution(new_status) && notes is None {
                Some(
                    crate::api_error::ApiErrorModel::Validation(
                        "resolution_notes is required when resolving a dispute"@,
                    ),
                )
            } else {
                None
            },
        },
    }
}

/// Why evidence is not taken, if it is not.
pub open spec fn evidence_error(status: Option<DisputeStatus>) -> Option<
    crate::api_error::ApiErrorModel,
> {
    match status {
        None => Some(crate::api_error::ApiErrorModel::NotFound("Dispute not found"@)),
        Some(s) => if is_active(s) {
            None
        } else {
            Some(
                crate::api_error::ApiErrorModel::BadRequest(
                    "Evidence can only be added to open or under-review disputes"@,
                ),
            )
        },
    }
}

/// The decisions on disputes.
pub struct DisputeService {}

impl DisputeService {
    /// Enforces valid status transitions.
    pub fn validate_status_transition(from: &DisputeStatus, to: &DisputeStatus) -> (r: Result<
        (),
        ApiError,
    >)
        ensures
            crate::api_error::fails_with(r, transition_error(*from, *to)),
    {
        let valid = match (from, to) {
            (DisputeStatus::Open, DisputeStatus::UnderReview) => true,
            (DisputeStatus::Open, DisputeStatus::Closed) => true,
            (DisputeStatus::UnderReview, DisputeStatus::ResolvedCustomer) => true,
            (DisputeStatus::UnderReview, DisputeStatus::ResolvedMerchant) => true,
            (DisputeStatus::UnderReview, DisputeStatus::Closed) => true,
            _ => false,
        };
        if valid {
            return Ok(());
        }
        let mut message = owned("Invalid status transition from '");
        message.append(from.as_str());
        message.append("' to '");
        message.append(to.as_str());
        message.append("'");
        Err(ApiError::BadRequest(message))
    }

    /// Checks that the payment exists, belongs to the user and is completed.
    pub fn check_payment(payment: &Option<PaymentRecord>, user_id: &str) -> (r: Result<
        (),
        ApiError,
    >)
        ensures
            crate::api_error::fails_with(r, payment_error(*payment, user_id@)),
    {
        match payment {
            None => Err(ApiError::NotFound(owned("Payment not found"))),
            Some(p) => {
                if !same_text(p.from_address.as_str(), user_id) {
                    return Err(
                        ApiError::Authorization(
                            owned("You are not authorised to dispute this payment"),
                        ),
                    );
                }
                if !same_text(p.status.as_str(), "completed") {
                    return Err(
                        ApiError::BadRequest(owned("Only completed payments can be disputed")),
                    );
                }
                Ok(())
            },
        }
    }

    /// Decides on a dispute that is to be stored under the given identifier.
    pub fn file_dispute_as(
        id: String,
        payment_id: u128,
        user_id: &str,
        payment: &Option<PaymentRecord>,
        active_dispute: bool,
        request: FileDisputeRequest,
    ) -> (r: Result<NewDispute, ApiError>)
        ensures
            crate::api_error::fails_with(
                r,
                filing_error(*payment, user_id@, active_dispute, request.disputed_amount),
            ),
            r matches Ok(d) ==> d.id == id && d.payment_id@ == crate::ids::uuid_text(payment_id)
                && d.filed_by_user_id@ == user_id@ && d.reason == request.reason && d.description
                == request.description && d.status == DisputeStatus::Open && d.disputed_amount
                == amount_in_dispute(request.disputed_amount, payment->0.send_amount),
    {
        match Self::check_payment(payment, user_id) {
            Err(e) => {
                return Err(e);
            },
            Ok(_) => {},
        }
        if active_dispute {
            return Err(
                ApiError::Conflict(owned("An active dispute already exists for this payment")),
            );
        }
        let full: i64 = match payment {
            Some(p) => p.send_amount,
            None => 0,
        };
        let amount: i64 = match request.disputed_amount {
            Some(amount) => amount,
            None => full,
        };
        if amount <= 0 || amount > full {
            let mut message = owned("disputed_amount must be between 1 and ");
            push_decimal_i64(&mut message, full);
            message.append(" (the full payment amount)");
            return Err(ApiError::Validation(message));
        }
        Ok(
            NewDispute {
                id,
                payment_id: id_text(payment_id),
                filed_by_user_id: owned(user_id),
                reason: request.reason,
                description: request.description,
                status: DisputeStatus::Open,
                disputed_amount: amount,
            },
        )
    }

    /// Decides on a dispute, which gets a new random identifier.
    pub fn file_dispute(
        payment_id: u128,
        user_id: &str,
        payment: &Option<PaymentRecord>,
        active_dispute: bool,
        request: FileDisputeRequest,
    ) -> (r: Result<NewDispute, ApiError>)
        ensures
            crate::api_error::fails_with(
                r,
                filing_error(*payment, user_id@, active_dispute, request.disputed_amount),
            ),
            r matches Ok(d) ==> {
                &&& exists|id: u128| #[trigger]
                    crate::ids::is_random_uuid(id) && d.id@ == crate::ids::uuid_text(id)
                &&& d.payment_id@ == crate::ids::uuid_text(payment_id)
                &&& d.filed_by_user_id@ == user_id@
                &&& d.reason == request.reason
                &&& d.description == request.description
                &&& d.status == DisputeStatus::Open
                &&& d.disputed_amount == amount_in_dispute(
                    request.disputed_amount,
                    payment->0.send_amount,
                )
            },
    {
        Self::file_dispute_as(new_id(), payment_id, user_id, payment, active_dispute, request)
    }

    /// Decides on a move to another stage, and says what is to be stored.
    pub fn update_dispute_status(
        current: Option<DisputeProgress>,
        new_status: DisputeStatus,
        admin_user_id: &str,
        resolution_notes: Option<String>,
    ) -> (r: Result<DisputeProgress, ApiError>)
        ensures
            crate::api_error::fails_with(r, update_error(current, new_status, resolution_notes)),
            r matches Ok(next) ==> {
                &&& next.status == new_status
                &&& next.resolution_notes == if resolution_notes is Some {
                    resolution_notes
                } else {
                    current->0.resolution_notes
                }
                &&& if is_resolution(new_status) || new_status == DisputeStatus::Closed {
                    crate::text::opt_string(next.resolved_by) == Some(admin_user_id@)
                } else {
                    next.resolved_by == current->0.resolved_by
                }
            },
    {
        let current = match current {
            None => {
                return Err(ApiError::NotFound(owned("Dispute not found")));
            },
            Some(current) => current,
        };
        match Self::validate_status_transition(&current.status, &new_status) {
            Err(e) => {
                return Err(e);
            },
            Ok(_) => {},
        }
        let resolving = matches!(
            new_status,
            DisputeStatus::ResolvedCustomer | DisputeStatus::ResolvedMerchant
        );
        if resolving && resolution_notes.is_none() {
            return Err(
                ApiError::Validation(
                    owned("resolution_notes is required when resolving a dispute"),
                ),
            );
        }
        let closing = matches!(new_status, DisputeStatus::Closed);
        let notes = match resolution_notes {
            Some(notes) => Some(notes),
            None => current.resolution_notes,
        };
        let resolved_by = if resolving || closing {
            Some(owned(admin_user_id))
        } else {
            current.resolved_by
        };
        Ok(DisputeProgress { status: new_status, resolution_notes: notes, resolved_by })
    }

    /// The name under which a move to a stage is counted.
    pub fn status_event(status: &DisputeStatus) -> (r: String)
        ensures
            r@ == "status_"@ + status.text(),
    {
        join2("status_", status.as_str())
    }

    /// Decides on evidence that is to be stored under the given identifier.
    pub fn add_evidence_as(
        id: String,
        dispute_id: u128,
        user_id: &str,
        status: Option<DisputeStatus>,
        request: AddEvidenceRequest,
    ) -> (r: Result<NewEvidence, ApiError>)
        ensures
            crate::api_error::fails_with(r, evidence_error(status)),
            r matches Ok(e) ==> e.id == id && e.dispute_id@ == crate::ids::uuid_text(dispute_id)
                && e.submitted_by_user_id@ == user_id@ && e.evidence_type
                == request.evidence_type && e.description == request.description && e.file_url
                == request.file_url,
    {
        match status {
            None => Err(ApiError::NotFound(owned("Dispute not found"))),
            Some(s) => {
                if !matches!(s, DisputeStatus::Open | DisputeStatus::UnderReview) {
                    return Err(
                        ApiError::BadRequest(
                            owned("Evidence can only be added to open or under-review disputes"),
                        ),
                    );
                }
                Ok(
                    NewEvidence {
                        id,
                        dispute_id: id_text(dispute_id),
                        submitted_by_user_id: owned(user_id),
                        evidence_type: request.evidence_type,
                        description: request.description,
                        file_url: request.file_url,
                    },
                )
            },
        }
    }

    /// Decides on evidence, which gets a new random identifier.
    pub fn add_evidence(
        dispute_id: u128,
        user_id: &str,
        status: Option<DisputeStatus>,
        request: AddEvidenceRequest,
    ) -> (r: Result<NewEvidence, ApiError>)
        ensures
            crate::api_error::fails_with(r, evidence_error(status)),
            r matches Ok(e) ==> {
                &&& exists|id: u128| #[trigger]
                    crate::ids::is_random_uuid(id) && e.id@ == crate::ids::uuid_text(id)
                &&& e.dispute_id@ == crate::ids::uuid_text(dispute_id)
                &&& e.submitted_by_user_id@ == user_id@
                &&& e.evidence_type == request.evidence_type
                &&& e.description == request.description
                &&& e.file_url == request.file_url
            },
    {
        Self::add_evidence_as(new_id(), dispute_id, user_id, status, request)
    }
}

/// What a request wants to do with a dispute.
#[derive(Clone, Copy, Debug, PartialEq, Eq)]
pub enum DisputeAccess {
    View,
    AddEvidence,
    ViewEvidence,
}

/// The answer to a request that may not do what it wants.
pub open spec fn refusal(access: DisputeAccess) -> Seq<char> {
    match access {
        DisputeAccess::View => "You are not authorised to view this dispute"@,
        DisputeAccess::AddEvidence =>
            "You are not authorised to add evidence to this dispute"@,
        DisputeAccess::ViewEvidence =>
            "You are not authorised to view evidence for this dispute"@,
    }
}

/// Checks that the dispute is the viewer's own, unless the viewer is an
/// administrator.
pub fn check_access(viewer: &Viewer, filed_by_user_id: &str, access: DisputeAccess) -> (r: Result<
    (),
    ApiError,
>)
    ensures
        crate::api_error::fails_with(
            r,
            if viewer.is_admin || filed_by_user_id@ == viewer.user_id@ {
                None
            } else {
                Some(crate::api_error::ApiErrorModel::Authorization(refusal(access)))
            },
        ),
{
    if !viewer.is_admin && !same_text(filed_by_user_id, viewer.user_id.as_str()) {
        let message = match access {
            DisputeAccess::View => "You are not authorised to view this dispute",
            DisputeAccess::AddEvidence => "You are not authorised to add evidence to this dispute",
            DisputeAccess::ViewEvidence =>
                "You are not authorised to view evidence for this dispute",
        };
        return Err(ApiError::Authorization(owned(message)));
    }
    Ok(())
}

/// Why a dispute's identifier is refused, if it is.
pub open spec fn dispute_id_error(dispute_id: Seq<char>) -> Option<
    crate::api_error::ApiErrorModel,
> {
    if crate::ids::parsed_uuid(dispute_id) is None {
        Some(crate::api_error::ApiErrorModel::Validation("Invalid dispute ID"@))
    } else {
        None
    }
}

/// Reads the identifier of a dispute.
pub fn check_dispute_id(dispute_id: &str) -> (r: Result<u128, ApiError>)
    ensures
        crate::api_error::fails_with(r, dispute_id_error(dispute_id@)),
        r matches Ok(id) ==> crate::ids::parsed_uuid(dispute_id@) == Some(id),
{
    dispute_id_from(parse_id(dispute_id))
}

/// The identifier of a dispute, given what was read.
pub fn dispute_id_from(parsed: Option<u128>) -> (r: Result<u128, ApiError>)
    ensures
        match parsed {
            Some(id) => r == Ok::<u128, ApiError>(id),
            None => crate::api_error::fails_with(
                r,
                Some(crate::api_error::ApiErrorModel::Validation("Invalid dispute ID"@)),
            ),
        },
{
    match parsed {
        Some(id) => Ok(id),
        None => Err(ApiError::Validation(owned("Invalid dispute ID"))),
    }
}

/// Why a request to file is refused before anything is looked up, if it is.
pub open spec fn file_request_error(
    parsed: Option<u128>,
    description: Seq<char>,
) -> Option<crate::api_error::ApiErrorModel> {
    if parsed is None {
        Some(crate::api_error::ApiErrorModel::Validation("Invalid payment ID"@))
    } else if crate::text::is_blank(description) {
        Some(crate::api_error::ApiErrorModel::Validation("description must not be empty"@))
    } else {
        None
    }
}

/// Checks a request to file a dispute, given the payment's identifier as it
/// was read.
pub fn file_request_from(parsed: Option<u128>, request: &FileDisputeRequest) -> (r: Result<
    u128,
    ApiError,
>)
    ensures
        crate::api_error::fails_with(r, file_request_error(parsed, request.description@)),
        r matches Ok(id) ==> parsed == Some(id),
{
    let id: u128 = match parsed {
        Some(id) => id,
        None => {
            return Err(ApiError::Validation(owned("Invalid payment ID")));
        },
    };
    if blank(request.description.as_str()) {
        return Err(ApiError::Validation(owned("description must not be empty")));
    }
    Ok(id)
}

/// Checks a request to file a dispute and reads the payment's identifier.
pub fn check_file_request(payment_id: &str, request: &FileDisputeRequest) -> (r: Result<
    u128,
    ApiError,
>)
    ensures
        crate::api_error::fails_with(
            r,
            file_request_error(crate::ids::parsed_uuid(payment_id@), request.description@),
        ),
        r matches Ok(id) ==> crate::ids::parsed_uuid(payment_id@) == Some(id),
{
    file_request_from(parse_id(payment_id), request)
}

/// Why a request to add evidence is refused before anything is looked up, if
/// it is.
pub open spec fn evidence_request_error(
    parsed: Option<u128>,
    description: Seq<char>,
) -> Option<crate::api_error::ApiErrorModel> {
    if parsed is None {
        Some(crate::api_error::ApiErrorModel::Validation("Invalid dispute ID"@))
    } else if crate::text::is_blank(description) {
        Some(crate::api_error::ApiErrorModel::Validation("description must not be empty"@))
    } else {
        None
    }
}

/// Checks a request to add evidence, given the dispute's identifier as it was
/// read.
pub fn evidence_request_from(parsed: Option<u128>, request: &AddEvidenceRequest) -> (r: Result<
    u128,
    ApiError,
>)
    ensures
        crate::api_error::fails_with(r, evidence_request_error(parsed, request.description@)),
        r matches Ok(id) ==> parsed == Some(id),
{
    match dispute_id_from(parsed) {
        Err(e) => Err(e),
        Ok(id) => {
            if blank(request.description.as_str()) {
                return Err(ApiError::Validation(owned("description must not be empty")));
            }
            Ok(id)
        },
    }
}

/// Checks a request to add evidence and reads the dispute's identifier.
pub fn check_evidence_request(dispute_id: &str, request: &AddEvidenceRequest) -> (r: Result<
    u128,
    ApiError,
>)
    ensures
        crate::api_error::fails_with(
            r,
            evidence_request_error(crate::ids::parsed_uuid(dispute_id@), request.description@),
        ),
        r matches Ok(id) ==> crate::ids::parsed_uuid(dispute_id@) == Some(id),
{
    evidence_request_from(parse_id(dispute_id), request)
}

/// Why a request to update a dispute is refused before anything is looked up,
/// if it is.
pub open spec fn update_request_error(is_admin: bool, parsed: Option<u128>) -> Option<
    crate::api_error::ApiErrorModel,
> {
    if !is_admin {
        Some(
            crate::api_error::ApiErrorModel::Authorization(
                "Admin access required to update dispute status"@,
            ),
        )
    } else if parsed is None {
        Some(crate::api_error::ApiErrorModel::Validation("Invalid dispute ID"@))
    } else {
        None
    }
}

/// Checks a request to update a dispute, given its identifier as it was read.
pub fn update_request_from(viewer: &Viewer, parsed: Option<u128>) -> (r: Result<u128, ApiError>)
    ensures
        crate::api_error::fails_with(r, update_request_error(viewer.is_admin, parsed)),
        r matches Ok(id) ==> parsed == Some(id),
{
    if !viewer.is_admin {
        return Err(
            ApiError::Authorization(owned("Admin access required to update dispute status")),
        );
    }
    dispute_id_from(parsed)
}

/// Checks a request to update a dispute and reads its identifier.
pub fn check_update_request(viewer: &Viewer, dispute_id: &str) -> (r: Result<u128, ApiError>)
    ensures
        crate::api_error::fails_with(
            r,
            update_request_error(viewer.is_admin, crate::ids::parsed_uuid(dispute_id@)),
        ),
        r matches Ok(id) ==> crate::ids::parsed_uuid(dispute_id@) == Some(id),
{
    update_request_from(viewer, parse_id(dispute_id))
}

/// The queries that count and fetch a list of disputes, with their text
/// arguments. The page query takes the limit and the offset after them.
#[derive(Debug)]
pub struct ListQuery {
    pub count_sql: String,
    pub page_sql: String,
    pub args: Vec<String>,
    pub limit: i64,
    pub offset: i64,
}

/// Which disputes a query is about.
#[derive(Debug)]
pub struct DisputeFilter {
    pub status: Option<String>,
    pub payment_id: Option<String>,
    pub filed_by_user_id: Option<String>,
}

impl DisputeFilter {
    /// The columns that the filter fixes, in order.
    pub open spec fn columns(self) -> Seq<Seq<char>> {
        let a = if self.status is Some {
            seq!["status"@]
        } else {
            Seq::empty()
        };
        let b = if self.payment_id is Some {
            a.push("payment_id"@)
        } else {
            a
        };
        if self.filed_by_user_id is Some {
            b.push("filed_by_user_id"@)
        } else {
            b
        }
    }

    /// The values that the columns are fixed to, in order.
    pub open spec fn values(self) -> Seq<Seq<char>> {
        let a = match self.status {
            Some(v) => seq![v@],
            None => Seq::empty(),
        };
        let b = match self.payment_id {
            Some(v) => a.push(v@),
            None => a,
        };
        match self.filed_by_user_id {
            Some(v) => b.push(v@),
            None => b,
        }
    }
}

/// The condition of a query that fixes the first `n` columns to its first `n`
/// arguments.
pub open spec fn where_text(columns: Seq<Seq<char>>, n: nat) -> Seq<char>
    decreases n,
{
    if n == 0 {
        Seq::empty()
    } else {
        where_text(columns, (n - 1) as nat) + (if n == 1 {
            " WHERE "@
        } else {
            " AND "@
        }) + columns[n - 1] + " = $"@ + crate::text::decimal(n)
    }
}

/// The query that counts the disputes in which the columns are fixed.
pub open spec fn count_text(columns: Seq<Seq<char>>) -> Seq<char> {
    "SELECT COUNT(*) FROM payment_disputes"@ + where_text(columns, columns.len())
}

/// The query that fetches a page of the disputes in which the columns are
/// fixed, newest first.
pub open spec fn page_text(columns: Seq<Seq<char>>) -> Seq<char> {
    let n = columns.len();
    "SELECT id, payment_id, filed_by_user_id, reason, description, status, disputed_amount, resolution_notes, resolved_by, created_at, updated_at FROM payment_disputes"@
        + where_text(columns, n) + " ORDER BY created_at DESC LIMIT $"@
        + crate::text::decimal(n + 1) + " OFFSET $"@ + crate::text::decimal(n + 2)
}

/// Appends a condition to a query.
fn push_condition(sql: &mut String, column: &str, place: u64)
    requires
        place > 0,
    ensures
        final(sql)@ == old(sql)@ + (if place == 1 {
            " WHERE "@
        } else {
            " AND "@
        }) + column@ + " = $"@ + crate::text::decimal(place as nat),
{
    if place == 1 {
        sql.append(" WHERE ");
    } else {
        sql.append(" AND ");
    }
    sql.append(column);
    sql.append(" = $");
    push_decimal(sql, place);
}

/// The queries for the disputes that the filter lets through.
pub fn list_query(filter: DisputeFilter, limit: i64, offset: i64) -> (r: ListQuery)
    ensures
        r.count_sql@ == count_text(filter.columns()),
        r.page_sql@ == page_text(filter.columns()),
        crate::text::string_texts(r.args@) == filter.values(),
        r.limit == limit,
        r.offset == offset,
{
    let ghost columns = filter.columns();
    let mut condition = String::new();
    let mut args: Vec<String> = Vec::new();
    let mut place: u64 = 0;
    assert(condition@ =~= where_text(columns, 0));
    assert(crate::text::string_texts(args@) =~= Seq::empty());
    match filter.status {
        Some(status) => {
            push_condition(&mut condition, "status", 1);
            args.push(status);
            place = 1;
            assert(columns[0] == "status"@);
            assert(condition@ == where_text(columns, 1));
            assert(crate::text::string_texts(args@) =~= seq![status@]);
        },
        None => {},
    }
    match filter.payment_id {
        Some(payment_id) => {
            let ghost before = args@;
            push_condition(&mut condition, "payment_id", place + 1);
            args.push(payment_id);
            assert(columns[place as int] == "payment_id"@);
            assert(condition@ == where_text(columns, (place + 1) as nat));
            assert(crate::text::string_texts(args@) =~= crate::text::string_texts(before).push(
                payment_id@,
            ));
            place = place + 1;
        },
        None => {},
    }
    match filter.filed_by_user_id {
        Some(user_id) => {
            let ghost before = args@;
            push_condition(&mut condition, "filed_by_user_id", place + 1);
            args.push(user_id);
            assert(columns[place as int] == "filed_by_user_id"@);
            assert(condition@ == where_text(columns, (place + 1) as nat));
            assert(crate::text::string_texts(args@) =~= crate::text::string_texts(before).push(
                user_id@,
            ));
            place = place + 1;
        },
        None => {},
    }
    assert(place == columns.len());
    let mut count_sql = owned("SELECT COUNT(*) FROM payment_disputes");
    count_sql.append(condition.as_str());
    let mut page_sql = owned(
        "SELECT id, payment_id, filed_by_user_id, reason, description, status, disputed_amount, resolution_notes, resolved_by, created_at, updated_at FROM payment_disputes",
    );
    page_sql.append(condition.as_str());
    page_sql.append(" ORDER BY created_at DESC LIMIT $");
    push_decimal(&mut page_sql, place + 1);
    page_sql.append(" OFFSET $");
    push_decimal(&mut page_sql, place + 2);
    ListQuery { count_sql, page_sql, args, limit, offset }
}

impl DisputeService {
    /// The query that an administrator's filters ask for.
    pub fn list_disputes(params: DisputeQueryParams) -> (r: ListQuery)
        ensures
            ({
                let filter = DisputeFilter {
                    status: params.status,
                    payment_id: params.payment_id,
                    filed_by_user_id: None,
                };
                &&& r.count_sql@ == count_text(filter.columns())
                &&& r.page_sql@ == page_text(filter.columns())
                &&& crate::text::string_texts(r.args@) == filter.values()
                &&& r.limit == params.limit
                &&& r.offset == params.offset
            }),
    {
        list_query(
            DisputeFilter {
                status: params.status,
                payment_id: params.payment_id,
                filed_by_user_id: None,
            },
            params.limit,
            params.offset,
        )
    }

    /// The query for the disputes that a user filed.
    pub fn list_user_disputes(user_id: &str, page: PaginationParams) -> (r: ListQuery)
        ensures
            r.count_sql@ == count_text(seq!["filed_by_user_id"@]),
            r.page_sql@ == page_text(seq!["filed_by_user_id"@]),
            crate::text::string_texts(r.args@) == seq![user_id@],
            r.limit == page.limit,
            r.offset == page.offset,
    {
        let filter = DisputeFilter {
            status: None,
            payment_id: None,
            filed_by_user_id: Some(owned(user_id)),
        };
        assert(filter.columns() =~= seq!["filed_by_user_id"@]);
        assert(filter.values() =~= seq![user_id@]);
        list_query(filter, page.limit, page.offset)
    }
}

/// The query for the disputes over a payment: all of them for an
/// administrator, the viewer's own for everybody else.
pub fn list_payment_disputes(viewer: &Viewer, payment_id: &str, page: PaginationParams) -> (r:
    ListQuery)
    ensures
        ({
            let columns = if viewer.is_admin {
                seq!["payment_id"@]
            } else {
                seq!["payment_id"@, "filed_by_user_id"@]
            };
            let values = if viewer.is_admin {
                seq![payment_id@]
            } else {
                seq![payment_id@, viewer.user_id@]
            };
            &&& r.count_sql@ == count_text(columns)
            &&& r.page_sql@ == page_text(columns)
            &&& crate::text::string_texts(r.args@) == values
        }),
        r.limit == page.limit,
        r.offset == page.offset,
{
    let filed_by_user_id = if viewer.is_admin {
        None
    } else {
        Some(viewer.user_id.clone())
    };
    let filter = DisputeFilter {
        status: None,
        payment_id: Some(owned(payment_id)),
        filed_by_user_id,
    };
    assert(filter.columns() =~= if viewer.is_admin {
        seq!["payment_id"@]
    } else {
        seq!["payment_id"@, "filed_by_user_id"@]
    });
    assert(filter.values() =~= if viewer.is_admin {
        seq![payment_id@]
    } else {
        seq![payment_id@, viewer.user_id@]
    });
    list_query(filter, page.limit, page.offset)
}

/// Checks that the viewer may list everybody's disputes.
pub fn check_list_all(viewer: &Viewer) -> (r: Result<(), ApiError>)
    ensures
        crate::api_error::fails_with(
            r,
            if viewer.is_admin {
                None
            } else {
                Some(crate::api_error::ApiErrorModel::Authorization("Admin access required"@))
            },
        ),
{
    if !viewer.is_admin {
        return Err(ApiError::Authorization(owned("Admin access required")));
    }
    Ok(())
}

/// A page of disputes, with a total of zero where counting failed.
pub fn list_response(
    disputes: Vec<PaymentDispute>,
    total: Option<i64>,
    limit: i64,
    offset: i64,
) -> (r: DisputeListResponse)
    ensures
        r == (DisputeListResponse {
            disputes,
            total: match total {
                Some(n) => n,
                None => 0,
            },
            limit,
            offset,
        }),
{
    let total: i64 = match total {
        Some(n) => n,
        None => 0,
    };
    DisputeListResponse { disputes, total, limit, offset }
}

/// A dispute moves from open to review or closed, from review to a resolution
/// for either side or closed, and not otherwise. A refused move is answered
/// with both stages.
pub proof fn law_moves(from: DisputeStatus, to: DisputeStatus)
    ensures
        transition_allowed(from, to) <==> {
            ||| from == DisputeStatus::Open && to == DisputeStatus::UnderReview
            ||| from == DisputeStatus::Open && to == DisputeStatus::Closed
            ||| from == DisputeStatus::UnderReview && to == DisputeStatus::ResolvedCustomer
            ||| from == DisputeStatus::UnderReview && to == DisputeStatus::ResolvedMerchant
            ||| from == DisputeStatus::UnderReview && to == DisputeStatus::Closed
        },
        transition_error(from, to) is None <==> transition_allowed(from, to),
        !transition_allowed(from, to) ==> transition_error(from, to) == Some(
            crate::api_error::ApiErrorModel::BadRequest(
                "Invalid status transition from '"@ + from.text() + "' to '"@ + to.text() + "'"@,
            ),
        ),
        is_resolution(to) <==> to == DisputeStatus::ResolvedCustomer || to
            == DisputeStatus::ResolvedMerchant,
        is_active(from) <==> from != DisputeStatus::ResolvedCustomer && from
            != DisputeStatus::ResolvedMerchant && from != DisputeStatus::Closed,
{
}

/// An update succeeds exactly when the dispute exists, the move is allowed, and
/// a resolution comes with notes.
pub proof fn law_update_conditions(
    current: Option<DisputeProgress>,
    to: DisputeStatus,
    notes: Option<String>,
)
    ensures
        ({
            let resolving = to == DisputeStatus::ResolvedCustomer || to
                == DisputeStatus::ResolvedMerchant;
            let error = update_error(current, to, notes);
            &&& error is None <==> current is Some && transition_allowed(current->0.status, to) && (
            resolving ==> notes is Some)
            &&& current is None ==> error == Some(
                crate::api_error::ApiErrorModel::NotFound("Dispute not found"@),
            )
            &&& current is Some && !transition_allowed(current->0.status, to) ==> error
                == transition_error(current->0.status, to)
            &&& current is Some && transition_allowed(current->0.status, to) && resolving
                && notes is None ==> error == Some(
                crate::api_error::ApiErrorModel::Validation(
                    "resolution_notes is required when resolving a dispute"@,
                ),
            )
        }),
{
}

/// Which failure a filing meets: the payment is unknown, someone else's or not
/// completed; it is already disputed; or the amount is not between one and the
/// whole payment. Where no amount is given, the whole payment is disputed.
pub proof fn law_filing_failures(
    payment: Option<PaymentRecord>,
    user_id: Seq<char>,
    active_dispute: bool,
    requested: Option<i64>,
)
    ensures
        ({
            let error = filing_error(payment, user_id, active_dispute, requested);
            let p = payment->0;
            let own = payment is Some && p.from_address@ == user_id;
            let completed = own && p.status@ == "completed"@;
            let amount = if requested is Some {
                requested->0
            } else {
                p.send_amount
            };
            &&& payment is None ==> error == Some(
                crate::api_error::ApiErrorModel::NotFound("Payment not found"@),
            )
            &&& payment is Some && !own ==> error == Some(
                crate::api_error::ApiErrorModel::Authorization(
                    "You are not authorised to dispute this payment"@,
                ),
            )
            &&& own && !completed ==> error == Some(
                crate::api_error::ApiErrorModel::BadRequest(
                    "Only completed payments can be disputed"@,
                ),
            )
            &&& completed && active_dispute ==> error == Some(
                crate::api_error::ApiErrorModel::Conflict(
                    "An active dispute already exists for this payment"@,
                ),
            )
            &&& completed && !active_dispute && !(1 <= amount <= p.send_amount) ==> error == Some(
                crate::api_error::ApiErrorModel::Validation(
                    "disputed_amount must be between 1 and "@ + crate::text::decimal_int(
                        p.send_amount as int,
                    ) + " (the full payment amount)"@,
                ),
            )
            &&& completed && !active_dispute && 1 <= amount <= p.send_amount ==> error is None
            &&& amount_in_dispute(requested, p.send_amount) == amount
        }),
{
}

/// Evidence is taken while a dispute is open or under review. A request must
/// name what it is about and describe it; only an administrator updates.
pub proof fn law_request_conditions(
    status: Option<DisputeStatus>,
    parsed: Option<u128>,
    description: Seq<char>,
    is_admin: bool,
)
    ensures
        evidence_error(status) is None <==> status == Some(DisputeStatus::Open) || status == Some(
            DisputeStatus::UnderReview,
        ),
        status is None ==> evidence_error(status) == Some(
            crate::api_error::ApiErrorModel::NotFound("Dispute not found"@),
        ),
        file_request_error(parsed, description) is None <==> parsed is Some
            && !crate::text::is_blank(description),
        evidence_request_error(parsed, description) is None <==> parsed is Some
            && !crate::text::is_blank(description),
        update_request_error(is_admin, parsed) is None <==> is_admin && parsed is Some,
        !is_admin ==> update_request_error(is_admin, parsed) == Some(
            crate::api_error::ApiErrorModel::Authorization(
                "Admin access required to update dispute status"@,
            ),
        ),
{
}

/// What a refused request is told.
pub proof fn law_refusals(
    access: DisputeAccess,
    parsed: Option<u128>,
    description: Seq<char>,
    status: DisputeStatus,
    text: Seq<char>,
)
    ensures
        access == DisputeAccess::View ==> refusal(access)
            == "You are not authorised to view this dispute"@,
        access == DisputeAccess::AddEvidence ==> refusal(access)
            == "You are not authorised to add evidence to this dispute"@,
        access == DisputeAccess::ViewEvidence ==> refusal(access)
            == "You are not authorised to view evidence for this dispute"@,
        parsed is None ==> file_request_error(parsed, description) == Some(
            crate::api_error::ApiErrorModel::Validation("Invalid payment ID"@),
        ) && evidence_request_error(parsed, description) == Some(
            crate::api_error::ApiErrorModel::Validation("Invalid dispute ID"@),
        ) && update_request_error(true, parsed) == Some(
            crate::api_error::ApiErrorModel::Validation("Invalid dispute ID"@),
        ),
        parsed is Some && crate::text::is_blank(description) ==> file_request_error(
            parsed,
            description,
        ) == Some(
            crate::api_error::ApiErrorModel::Validation("description must not be empty"@),
        ) && evidence_request_error(parsed, description) == Some(
            crate::api_error::ApiErrorModel::Validation("description must not be empty"@),
        ),
        status != DisputeStatus::Open && status != DisputeStatus::UnderReview ==> evidence_error(
            Some(status),
        ) == Some(
            crate::api_error::ApiErrorModel::BadRequest(
                "Evidence can only be added to open or under-review disputes"@,
            ),
        ),
        crate::ids::parsed_uuid(text) is None ==> dispute_id_error(text) == Some(
            crate::api_error::ApiErrorModel::Validation("Invalid dispute ID"@),
        ),
        crate::ids::parsed_uuid(text) is Some ==> dispute_id_error(text) is None,
        DEFAULT_LIMIT == 50,
{
}

/// A filter fixes the column of each value that it is given, in the order of
/// status, payment and filer, each to its own value.
pub proof fn law_filter_columns(filter: DisputeFilter, i: int)
    requires
        0 <= i < filter.columns().len(),
    ensures
        filter.columns().len() == filter.values().len(),
        filter.columns().len() == (if filter.status is Some {
            1int
        } else {
            0
        }) + (if filter.payment_id is Some {
            1int
        } else {
            0
        }) + (if filter.filed_by_user_id is Some {
            1int
        } else {
            0
        }),
        ({
            let column = filter.columns()[i];
            let value = filter.values()[i];
            ||| column == "status"@ && filter.status is Some && value == filter.status->0@ && i == 0
            ||| column == "payment_id"@ && filter.payment_id is Some && value
                == filter.payment_id->0@ && i == (if filter.status is Some {
                1int
            } else {
                0
            })
            ||| column == "filed_by_user_id"@ && filter.filed_by_user_id is Some && value
                == filter.filed_by_user_id->0@ && i == filter.columns().len() - 1
        }),
{
}

/// What the queries say: each further column adds its condition, numbered like
/// its argument; the page comes newest first, with limit and offset after the
/// other arguments.
pub proof fn law_query_texts(columns: Seq<Seq<char>>, column: Seq<char>)
    ensures
        where_text(columns, 0) == Seq::<char>::empty(),
        ({
            let more = columns.push(column);
            let n = columns.len();
            &&& where_text(more, n + 1) == where_text(columns, n) + (if n == 0 {
                " WHERE "@
            } else {
                " AND "@
            }) + column + " = $"@ + crate::text::decimal(n + 1)
            &&& count_text(columns) == "SELECT COUNT(*) FROM payment_disputes"@ + where_text(
                columns,
                n,
            )
            &&& page_text(columns)
                == "SELECT id, payment_id, filed_by_user_id, reason, description, status, disputed_amount, resolution_notes, resolved_by, created_at, updated_at FROM payment_disputes"@
                + where_text(columns, n) + " ORDER BY created_at DESC LIMIT $"@
                + crate::text::decimal(n + 1) + " OFFSET $"@ + crate::text::decimal(n + 2)
        }),
{
    lemma_where_prefix(columns, column, columns.len());
    assert(columns.push(column)[columns.len() as int] == column);
}

proof fn lemma_where_prefix(columns: Seq<Seq<char>>, column: Seq<char>, n: nat)
    requires
        n <= columns.len(),
    ensures
        where_text(columns.push(column), n) == where_text(columns, n),
    decreases n,
{
    if n > 0 {
        lemma_where_prefix(columns, column, (n - 1) as nat);
    }
}

/// Different stages are stored under different texts, so a stored stage is
/// read back as what it was.
pub proof fn law_status_texts_are_distinct(a: DisputeStatus, b: DisputeStatus)
    requires
        a.text() == b.text(),
    ensures
        a == b,
{
    reveal_strlit("open");
    reveal_strlit("under_review");
    reveal_strlit("resolved_customer");
    reveal_strlit("resolved_merchant");
    reveal_strlit("closed");
    assert("open"@.len() == 4);
    assert("under_review"@.len() == 12);
    assert("resolved_customer"@.len() == 17);
    assert("resolved_merchant"@.len() == 17);
    assert("closed"@.len() == 6);
    assert("resolved_customer"@[9] == 'c');
    assert("resolved_merchant"@[9] == 'm');
}

/// A dispute can still move exactly as long as it is being worked on, and
/// that is also how long evidence is taken.
pub proof fn law_terminal_stages_are_final(status: DisputeStatus)
    ensures
        is_active(status) <==> exists|to: DisputeStatus| #[trigger] transition_allowed(status, to),
        is_active(status) <==> evidence_error(Some(status)) is None,
{
    if is_active(status) {
        assert(transition_allowed(status, DisputeStatus::Closed));
    }
}

/// How far along a dispute is in a stage.
pub open spec fn stage_rank(status: DisputeStatus) -> int {
    match status {
        DisputeStatus::Open => 0,
        DisputeStatus::UnderReview => 1,
        _ => 2,
    }
}

/// Every allowed move leads to a later stage, so a dispute never returns to a
/// stage it has left.
pub proof fn law_disputes_only_move_forward(from: DisputeStatus, to: DisputeStatus)
    requires
        transition_allowed(from, to),
    ensures
        stage_rank(from) < stage_rank(to),
{
}

/// A dispute is filed only on an existing, completed payment of the user's
/// own that has no active dispute, and for an amount from one to the whole.
pub proof fn law_filed_disputes_are_sound(
    payment: Option<PaymentRecord>,
    user_id: Seq<char>,
    active_dispute: bool,
    requested: Option<i64>,
)
    ensures
        (filing_error(payment, user_id, active_dispute, requested) is None) == (match payment {
            None => false,
            Some(p) => p.from_address@ == user_id && p.status@ == "completed"@ && !active_dispute
                && 1 <= amount_in_dispute(requested, p.send_amount) <= p.send_amount,
        }),
{
}

/// The texts under which the values are stored are fixed.
pub proof fn law_dispute_status_texts(v: DisputeStatus)
    ensures
        v is Open ==> v.text() == "open"@,
        v is UnderReview ==> v.text() == "under_review"@,
        v is ResolvedCustomer ==> v.text() == "resolved_customer"@,
        v is ResolvedMerchant ==> v.text() == "resolved_merchant"@,
        v is Closed ==> v.text() == "closed"@,
{
}

} // verus!
