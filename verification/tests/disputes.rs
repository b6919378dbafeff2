use blinks::api_error::ApiError;
use blinks::disputes::check_access;
use blinks::disputes::check_dispute_id;
use blinks::disputes::check_evidence_request;
use blinks::disputes::check_file_request;
use blinks::disputes::check_list_all;
use blinks::disputes::check_update_request;
use blinks::disputes::default_limit;
use blinks::disputes::list_payment_disputes;
use blinks::disputes::list_response;
use blinks::disputes::AddEvidenceRequest;
use blinks::disputes::DisputeAccess;
use blinks::disputes::DisputeProgress;
use blinks::disputes::DisputeQueryParams;
use blinks::disputes::DisputeService;
use blinks::disputes::DisputeStatus;
use blinks::disputes::FileDisputeRequest;
use blinks::disputes::PaginationParams;
use blinks::disputes::PaymentRecord;
use blinks::disputes::Viewer;
use blinks::ids::id_text;
use blinks::ids::new_id;
use blinks::ids::parse_id;
use blinks::text::blank;

const ID: &str = "123e4567-e89b-12d3-a456-426614174000";

fn message(error: ApiError) -> String {
    match error {
        ApiError::NotFound(m) => format!("404 {}", m),
        ApiError::BadRequest(m) => format!("400 {}", m),
        ApiError::Conflict(m) => format!("409 {}", m),
        ApiError::Validation(m) => format!("422 {}", m),
        ApiError::Authorization(m) => format!("403 {}", m),
        ApiError::RateLimit(m) => format!("429 {}", m),
        ApiError::InternalServerError => "500".to_string(),
    }
}

fn payment(status: &str) -> Option<PaymentRecord> {
    Some(PaymentRecord {
        from_address: "alice".to_string(),
        send_amount: 500,
        status: status.to_string(),
    })
}

fn request(amount: Option<i64>) -> FileDisputeRequest {
    FileDisputeRequest {
        reason: "not_received".to_string(),
        description: "nothing came".to_string(),
        disputed_amount: amount,
    }
}

fn file(
    user: &str,
    payment: &Option<PaymentRecord>,
    active: bool,
    amount: Option<i64>,
) -> Result<i64, String> {
    let id = parse_id(ID).unwrap();
    DisputeService::file_dispute(id, user, payment, active, request(amount))
        .map(|d| d.disputed_amount)
        .map_err(message)
}

#[test]
fn disputes_are_filed_within_the_rules() {
    let done = payment("completed");
    assert_eq!(file("alice", &done, false, None), Ok(500));
    assert_eq!(file("alice", &done, false, Some(1)), Ok(1));
    assert_eq!(file("alice", &done, false, Some(500)), Ok(500));
    assert_eq!(file("alice", &None, false, None), Err("404 Payment not found".to_string()));
    assert_eq!(
        file("bob", &done, false, None),
        Err("403 You are not authorised to dispute this payment".to_string())
    );
    assert_eq!(
        file("alice", &payment("pending"), false, None),
        Err("400 Only completed payments can be disputed".to_string())
    );
    assert_eq!(
        file("alice", &done, true, None),
        Err("409 An active dispute already exists for this payment".to_string())
    );
    for bad in [0, -5, 501] {
        assert_eq!(
            file("alice", &done, false, Some(bad)),
            Err(
                "422 disputed_amount must be between 1 and 500 (the full payment amount)"
                    .to_string()
            )
        );
    }
}

#[test]
fn filed_dispute_holds_the_request() {
    let id = parse_id(ID).unwrap();
    let filed = DisputeService::file_dispute(id, "alice", &payment("completed"), false, request(None))
        .unwrap();
    assert_eq!(filed.payment_id, ID);
    assert_eq!(filed.filed_by_user_id, "alice");
    assert_eq!(filed.reason, "not_received");
    assert_eq!(filed.status, DisputeStatus::Open);
    assert_ne!(filed.id, ID);
    assert!(parse_id(&filed.id).is_some());
}

#[test]
fn dispute_amount_message_with_odd_amounts() {
    let odd = Some(PaymentRecord {
        from_address: "alice".to_string(),
        send_amount: i64::MIN,
        status: "completed".to_string(),
    });
    assert_eq!(
        file("alice", &odd, false, None),
        Err(format!(
            "422 disputed_amount must be between 1 and {} (the full payment amount)",
            i64::MIN
        ))
    );
}

#[test]
fn dispute_status_moves() {
    let all = [
        DisputeStatus::Open,
        DisputeStatus::UnderReview,
        DisputeStatus::ResolvedCustomer,
        DisputeStatus::ResolvedMerchant,
        DisputeStatus::Closed,
    ];
    let mut allowed = vec![];
    for from in all {
        assert_eq!(DisputeStatus::parse(from.as_str()), Some(from));
        for to in all {
            match DisputeService::validate_status_transition(&from, &to) {
                Ok(_) => allowed.push((from, to)),
                Err(e) => assert_eq!(
                    message(e),
                    format!(
                        "400 Invalid status transition from '{}' to '{}'",
                        from.as_str(),
                        to.as_str()
                    )
                ),
            }
        }
    }
    assert_eq!(
        allowed,
        vec![
            (DisputeStatus::Open, DisputeStatus::UnderReview),
            (DisputeStatus::Open, DisputeStatus::Closed),
            (DisputeStatus::UnderReview, DisputeStatus::ResolvedCustomer),
            (DisputeStatus::UnderReview, DisputeStatus::ResolvedMerchant),
            (DisputeStatus::UnderReview, DisputeStatus::Closed),
        ]
    );
    assert_eq!(DisputeStatus::parse("OPEN"), None);
    assert_eq!(
        DisputeService::status_event(&DisputeStatus::ResolvedMerchant),
        "status_resolved_merchant"
    );
}

fn progress(status: DisputeStatus) -> Option<DisputeProgress> {
    Some(DisputeProgress {
        status,
        resolution_notes: Some("old".to_string()),
        resolved_by: None,
    })
}

#[test]
fn dispute_updates() {
    let review = DisputeService::update_dispute_status(
        progress(DisputeStatus::Open),
        DisputeStatus::UnderReview,
        "root",
        None,
    )
    .unwrap();
    assert_eq!(review.status, DisputeStatus::UnderReview);
    assert_eq!(review.resolution_notes.as_deref(), Some("old"));
    assert_eq!(review.resolved_by, None);
    let resolved = DisputeService::update_dispute_status(
        Some(review),
        DisputeStatus::ResolvedCustomer,
        "root",
        Some("refund".to_string()),
    )
    .unwrap();
    assert_eq!(resolved.resolution_notes.as_deref(), Some("refund"));
    assert_eq!(resolved.resolved_by.as_deref(), Some("root"));
    let missing = DisputeService::update_dispute_status(
        progress(DisputeStatus::UnderReview),
        DisputeStatus::ResolvedMerchant,
        "root",
        None,
    );
    assert_eq!(
        message(missing.unwrap_err()),
        "422 resolution_notes is required when resolving a dispute"
    );
    let unknown = DisputeService::update_dispute_status(None, DisputeStatus::Closed, "root", None);
    assert_eq!(message(unknown.unwrap_err()), "404 Dispute not found");
    let closed = DisputeService::update_dispute_status(
        progress(DisputeStatus::Open),
        DisputeStatus::Closed,
        "root",
        None,
    )
    .unwrap();
    assert_eq!(closed.resolved_by.as_deref(), Some("root"));
}

fn evidence(description: &str) -> AddEvidenceRequest {
    AddEvidenceRequest {
        evidence_type: "receipt".to_string(),
        description: description.to_string(),
        file_url: None,
    }
}

#[test]
fn dispute_evidence() {
    let id = parse_id(ID).unwrap();
    let taken =
        DisputeService::add_evidence(id, "alice", Some(DisputeStatus::UnderReview), evidence("x"))
            .unwrap();
    assert_eq!(taken.dispute_id, ID);
    assert_eq!(taken.evidence_type, "receipt");
    let late = DisputeService::add_evidence(id, "alice", Some(DisputeStatus::Closed), evidence("x"));
    assert_eq!(
        message(late.unwrap_err()),
        "400 Evidence can only be added to open or under-review disputes"
    );
    let none = DisputeService::add_evidence(id, "alice", None, evidence("x"));
    assert_eq!(message(none.unwrap_err()), "404 Dispute not found");
}

#[test]
fn dispute_requests_are_checked_first() {
    assert_eq!(check_file_request(ID, &request(None)).unwrap(), parse_id(ID).unwrap());
    assert_eq!(
        message(check_file_request("nope", &request(None)).unwrap_err()),
        "422 Invalid payment ID"
    );
    let mut silent = request(None);
    silent.description = " \t\u{a0}\u{2003}\n".to_string();
    assert_eq!(
        message(check_file_request(ID, &silent).unwrap_err()),
        "422 description must not be empty"
    );
    assert_eq!(
        message(check_evidence_request("nope", &evidence(" ")).unwrap_err()),
        "422 Invalid dispute ID"
    );
    assert_eq!(
        message(check_evidence_request(ID, &evidence(" ")).unwrap_err()),
        "422 description must not be empty"
    );
    assert!(check_evidence_request(ID, &evidence("x")).is_ok());
    assert_eq!(message(check_dispute_id("").unwrap_err()), "422 Invalid dispute ID");
}

fn viewer(user: &str, is_admin: bool) -> Viewer {
    Viewer { user_id: user.to_string(), is_admin }
}

#[test]
fn dispute_access() {
    assert!(check_access(&viewer("root", true), "alice", DisputeAccess::View).is_ok());
    assert!(check_access(&viewer("alice", false), "alice", DisputeAccess::View).is_ok());
    assert_eq!(
        message(check_access(&viewer("bob", false), "alice", DisputeAccess::View).unwrap_err()),
        "403 You are not authorised to view this dispute"
    );
    assert_eq!(
        message(
            check_access(&viewer("bob", false), "alice", DisputeAccess::AddEvidence).unwrap_err()
        ),
        "403 You are not authorised to add evidence to this dispute"
    );
    assert_eq!(
        message(
            check_access(&viewer("bob", false), "alice", DisputeAccess::ViewEvidence).unwrap_err()
        ),
        "403 You are not authorised to view evidence for this dispute"
    );
    assert_eq!(
        message(check_list_all(&viewer("bob", false)).unwrap_err()),
        "403 Admin access required"
    );
    assert!(check_list_all(&viewer("root", true)).is_ok());
    assert_eq!(
        message(check_update_request(&viewer("bob", false), ID).unwrap_err()),
        "403 Admin access required to update dispute status"
    );
    assert_eq!(
        message(check_update_request(&viewer("root", true), "x").unwrap_err()),
        "422 Invalid dispute ID"
    );
}

#[test]
fn dispute_queries() {
    let all = DisputeService::list_disputes(DisputeQueryParams {
        status: None,
        payment_id: None,
        limit: default_limit(),
        offset: 0,
    });
    assert_eq!(all.count_sql, "SELECT COUNT(*) FROM payment_disputes");
    assert!(all.page_sql.ends_with(" FROM payment_disputes ORDER BY created_at DESC LIMIT $1 OFFSET $2"));
    assert_eq!(all.limit, 50);
    let both = DisputeService::list_disputes(DisputeQueryParams {
        status: Some("open".to_string()),
        payment_id: Some("p".to_string()),
        limit: 5,
        offset: 10,
    });
    assert_eq!(
        both.count_sql,
        "SELECT COUNT(*) FROM payment_disputes WHERE status = $1 AND payment_id = $2"
    );
    assert!(both
        .page_sql
        .ends_with(" WHERE status = $1 AND payment_id = $2 ORDER BY created_at DESC LIMIT $3 OFFSET $4"));
    assert_eq!(both.args, vec!["open", "p"]);
    let page = PaginationParams { limit: 3, offset: 1 };
    let own = list_payment_disputes(&viewer("alice", false), "p", page);
    assert_eq!(
        own.count_sql,
        "SELECT COUNT(*) FROM payment_disputes WHERE payment_id = $1 AND filed_by_user_id = $2"
    );
    assert_eq!(own.args, vec!["p", "alice"]);
    let every = list_payment_disputes(&viewer("root", true), "p", page);
    assert_eq!(every.count_sql, "SELECT COUNT(*) FROM payment_disputes WHERE payment_id = $1");
    let mine = DisputeService::list_user_disputes("alice", page);
    assert_eq!(
        mine.count_sql,
        "SELECT COUNT(*) FROM payment_disputes WHERE filed_by_user_id = $1"
    );
    assert_eq!(mine.args, vec!["alice"]);
    let shown = list_response(vec![], None, 3, 1);
    assert_eq!((shown.total, shown.limit, shown.offset), (0, 3, 1));
    assert_eq!(list_response(vec![], Some(7), 3, 1).total, 7);
}

#[test]
fn identifiers_round_trip() {
    assert_eq!(parse_id(ID), Some(0x123e4567e89b12d3a456426614174000));
    assert_eq!(id_text(0x123e4567e89b12d3a456426614174000), ID);
    assert_eq!(parse_id("123E4567E89B12D3A456426614174000"), parse_id(ID));
    assert_eq!(id_text(0), "00000000-0000-0000-0000-000000000000");
    assert_eq!(id_text(u128::MAX), "ffffffff-ffff-ffff-ffff-ffffffffffff");
    assert_eq!(parse_id("123"), None);
    let fresh = new_id();
    assert_eq!(fresh.len(), 36);
    assert_eq!(fresh.as_bytes()[14], b'4');
    assert!(matches!(fresh.as_bytes()[19], b'8' | b'9' | b'a' | b'b'));
    assert_eq!(parse_id(&fresh).map(id_text), Some(fresh.clone()));
    assert_ne!(new_id(), fresh);
}

#[test]
fn blank_agrees_with_trimming() {
    for n in 0..=0x10ffffu32 {
        if let Some(c) = char::from_u32(n) {
            let text = c.to_string();
            assert_eq!(blank(&text), text.trim().is_empty());
        }
    }
    assert!(blank(""));
    assert!(!blank("  x "));
}
