//! Documentation of the API versions and the guide from one to the next.
use crate::api_error::ApiError;
use crate::text::join3;
use crate::text::owned;
use crate::text::same_text;
use vstd::prelude::*;

verus! {

/// What stands behind a version's number.
#[derive(Clone, Copy, Debug, PartialEq, Eq)]
pub enum VersionStatus {
    Current,
    Deprecated,
    Sunset,
}

/// The documentation of a version.
#[derive(Debug)]
pub struct VersionInfo {
    pub version: String,
    pub status: VersionStatus,
    pub released: &'static str,
    pub sunset: Option<&'static str>,
    pub migration_guide: Option<&'static str>,
    pub changelog_url: &'static str,
    pub features: Vec<&'static str>,
}

/// The mathematical value of a version's documentation.
#[verifier::ext_equal]
pub struct VersionInfoModel {
    pub version: Seq<char>,
    pub status: VersionStatus,
    pub released: Seq<char>,
    pub sunset: Option<Seq<char>>,
    pub migration_guide: Option<Seq<char>>,
    pub changelog_url: Seq<char>,
    pub features: Seq<Seq<char>>,
}

impl View for VersionInfo {
    type V = VersionInfoModel;

    open spec fn view(&self) -> VersionInfoModel {
        VersionInfoModel {
            version: self.version@,
            status: self.status,
            released: self.released@,
            sunset: crate::text::opt_text(self.sunset),
            migration_guide: crate::text::opt_text(self.migration_guide),
            changelog_url: self.changelog_url@,
            features: crate::text::texts(self.features@),
        }
    }
}

/// All versions.
#[derive(Debug)]
pub struct VersionListResponse {
    pub versions: Vec<VersionInfo>,
    pub current_version: &'static str,
    pub latest_version: &'static str,
}

/// A change that callers must follow.
#[derive(Debug)]
pub struct BreakingChange {
    pub endpoint: &'static str,
    pub description: &'static str,
    pub before: &'static str,
    pub after: &'static str,
}

/// The mathematical value of a change.
pub struct BreakingChangeModel {
    pub endpoint: Seq<char>,
    pub description: Seq<char>,
    pub before: Seq<char>,
    pub after: Seq<char>,
}

impl View for BreakingChange {
    type V = BreakingChangeModel;

    open spec fn view(&self) -> BreakingChangeModel {
        BreakingChangeModel {
            endpoint: self.endpoint@,
            description: self.description@,
            before: self.before@,
            after: self.after@,
        }
    }
}

/// A step of a migration.
#[derive(Debug)]
pub struct MigrationStep {
    pub step: u8,
    pub title: &'static str,
    pub description: &'static str,
}

/// The mathematical value of a step.
pub struct MigrationStepModel {
    pub step: u8,
    pub title: Seq<char>,
    pub description: Seq<char>,
}

impl View for MigrationStep {
    type V = MigrationStepModel;

    open spec fn view(&self) -> MigrationStepModel {
        MigrationStepModel {
            step: self.step,
            title: self.title@,
            description: self.description@,
        }
    }
}

/// How to move from one version to the next.
#[derive(Debug)]
pub struct MigrationGuide {
    pub from_version: String,
    pub to_version: String,
    pub breaking_changes: Vec<BreakingChange>,
    pub new_features: Vec<&'static str>,
    pub migration_steps: Vec<MigrationStep>,
    pub documentation_url: &'static str,
}

/// The mathematical value of a migration guide.
#[verifier::ext_equal]
pub struct MigrationGuideModel {
    pub from_version: Seq<char>,
    pub to_version: Seq<char>,
    pub breaking_changes: Seq<BreakingChangeModel>,
    pub new_features: Seq<Seq<char>>,
    pub migration_steps: Seq<MigrationStepModel>,
    pub documentation_url: Seq<char>,
}

impl View for MigrationGuide {
    type V = MigrationGuideModel;

    open spec fn view(&self) -> MigrationGuideModel {
        MigrationGuideModel {
            from_version: self.from_version@,
            to_version: self.to_version@,
            breaking_changes: self.breaking_changes@.map_values(|c: BreakingChange| c@),
            new_features: crate::text::texts(self.new_features@),
            migration_steps: self.migration_steps@.map_values(|s: MigrationStep| s@),
            documentation_url: self.documentation_url@,
        }
    }
}

/// The v1 version's documentation.
pub open spec fn v1_model() -> VersionInfoModel {
    VersionInfoModel {
        version: "v1"@,
        status: VersionStatus::Deprecated,
        released: "2026-01-20"@,
        sunset: Some("2027-01-01"@),
        migration_guide: Some("/api/versions/v1/migration"@),
        changelog_url: "https://docs.blinks.app/api/changelog/v1"@,
        features: seq![
            "payments"@,
            "transfers"@,
            "withdrawals"@,
            "identity"@,
            "notifications"@,
            "profiles"@,
            "audit-logs"@,
        ],
    }
}

/// The v1 version's documentation.
pub fn v1_info() -> (r: VersionInfo)
    ensures
        r@ == v1_model(),
{
    let r = VersionInfo {
        version: owned("v1"),
        status: VersionStatus::Deprecated,
        released: "2026-01-20",
        sunset: Some("2027-01-01"),
        migration_guide: Some("/api/versions/v1/migration"),
        changelog_url: "https://docs.blinks.app/api/changelog/v1",
        features: vec![
            "payments",
            "transfers",
            "withdrawals",
            "identity",
            "notifications",
            "profiles",
            "audit-logs",
        ],
    };
    assert(r@.features =~= v1_model().features);
    r
}

/// The v2 version's documentation.
pub open spec fn v2_model() -> VersionInfoModel {
    VersionInfoModel {
        version: "v2"@,
        status: VersionStatus::Current,
        released: "2026-05-01"@,
        sunset: None,
        migration_guide: None,
        changelog_url: "https://docs.blinks.app/api/changelog/v2"@,
        features: seq![
            "payments"@,
            "payment-disputes"@,
            "transfers"@,
            "withdrawals"@,
            "identity"@,
            "notifications"@,
            "profiles"@,
            "audit-logs"@,
            "enhanced-caching"@,
            "version-analytics"@,
        ],
    }
}

/// The v2 version's documentation.
pub fn v2_info() -> (r: VersionInfo)
    ensures
        r@ == v2_model(),
{
    let r = VersionInfo {
        version: owned("v2"),
        status: VersionStatus::Current,
        released: "2026-05-01",
        sunset: None,
        migration_guide: None,
        changelog_url: "https://docs.blinks.app/api/changelog/v2",
        features: vec![
            "payments",
            "payment-disputes",
            "transfers",
            "withdrawals",
            "identity",
            "notifications",
            "profiles",
            "audit-logs",
            "enhanced-caching",
            "version-analytics",
        ],
    };
    assert(r@.features =~= v2_model().features);
    r
}

/// All versions, oldest first.
pub fn list_versions() -> (r: VersionListResponse)
    ensures
        r.versions@.map_values(|v: VersionInfo| v@) == seq![v1_model(), v2_model()],
        r.current_version@ == "v1"@,
        r.latest_version@ == "v2"@,
{
    let r = VersionListResponse {
        versions: vec![v1_info(), v2_info()],
        current_version: "v1",
        latest_version: "v2",
    };
    assert(r.versions@.map_values(|v: VersionInfo| v@) =~= seq![v1_model(), v2_model()]);
    r
}

/// The documentation of the version, if there is one of that name.
pub fn get_version(version: &str) -> (r: Result<VersionInfo, ApiError>)
    ensures
        match r {
            Ok(info) => (version@ == "v1"@ && info@ == v1_model()) || (version@ == "v2"@ && info@
                == v2_model()),
            Err(e) => version@ != "v1"@ && version@ != "v2"@ && e@
                == crate::api_error::ApiErrorModel::NotFound(
                "API version '"@ + version@ + "' not found. Supported versions: v1, v2"@,
            ),
        },
{
    if same_text(version, "v1") {
        Ok(v1_info())
    } else if same_text(version, "v2") {
        Ok(v2_info())
    } else {
        Err(
            ApiError::NotFound(
                join3("API version '", version, "' not found. Supported versions: v1, v2"),
            ),
        )
    }
}

/// The guide from the first version to the second.
pub open spec fn v1_guide_model() -> MigrationGuideModel {
    MigrationGuideModel {
        from_version: "v1"@,
        to_version: "v2"@,
        breaking_changes: seq![
            BreakingChangeModel {
                endpoint: "POST /api/v1/payments"@,
                description: "Response now includes dispute_eligible field"@,
                before: "{\"id\":\"...\",\"status\":\"completed\"}"@,
                after: "{\"id\":\"...\",\"status\":\"completed\",\"dispute_eligible\":true}"@,
            },
            BreakingChangeModel {
                endpoint: "GET /api/v1/payments/:id"@,
                description: "Response includes active_dispute field when a dispute exists"@,
                before: "{\"id\":\"...\",\"status\":\"completed\"}"@,
                after: "{\"id\":\"...\",\"status\":\"completed\",\"active_dispute\":null}"@,
            },
        ],
        new_features: seq![
            "Payment dispute management (POST /api/v2/payments/:id/disputes)"@,
            "Cache hit rate analytics via /metrics endpoint"@,
            "API version usage analytics via /metrics endpoint"@,
            "Deprecation headers on all v1 responses"@,
        ],
        migration_steps: seq![
            MigrationStepModel {
                step: 1,
                title: "Update base URL"@,
                description: "Replace /api/v1/ with /api/v2/ in all API calls."@,
            },
            MigrationStepModel {
                step: 2,
                title: "Handle new response fields"@,
                description: "Update response parsing to handle new optional fields: dispute_eligible, active_dispute."@,
            },
            MigrationStepModel {
                step: 3,
                title: "Implement dispute handling"@,
                description: "Integrate the new dispute management endpoints for payment dispute workflows."@,
            },
            MigrationStepModel {
                step: 4,
                title: "Update error handling"@,
                description: "The error response shape is unchanged. No action required."@,
            },
        ],
        documentation_url: "https://docs.blinks.app/api/migration/v1-to-v2"@,
    }
}

/// The guide from the version to the next.
pub fn get_migration_guide(version: &str) -> (r: Result<MigrationGuide, ApiError>)
    ensures
        match r {
            Ok(guide) => version@ == "v1"@ && guide@ == v1_guide_model(),
            Err(e) => version@ != "v1"@ && e@ == if version@ == "v2"@ {
                crate::api_error::ApiErrorModel::BadRequest(
                    "v2 is the latest version. No migration guide available."@,
                )
            } else {
                crate::api_error::ApiErrorModel::NotFound(
                    "API version '"@ + version@ + "' not found"@,
                )
            },
        },
{
    if same_text(version, "v1") {
        let guide = MigrationGuide {
            from_version: owned("v1"),
            to_version: owned("v2"),
            breaking_changes: vec![
                BreakingChange {
                    endpoint: "POST /api/v1/payments",
                    description: "Response now includes dispute_eligible field",
                    before: "{\"id\":\"...\",\"status\":\"completed\"}",
                    after: "{\"id\":\"...\",\"status\":\"completed\",\"dispute_eligible\":true}",
                },
                BreakingChange {
                    endpoint: "GET /api/v1/payments/:id",
                    description: "Response includes active_dispute field when a dispute exists",
                    before: "{\"id\":\"...\",\"status\":\"completed\"}",
                    after: "{\"id\":\"...\",\"status\":\"completed\",\"active_dispute\":null}",
                },
            ],
            new_features: vec![
                "Payment dispute management (POST /api/v2/payments/:id/disputes)",
                "Cache hit rate analytics via /metrics endpoint",
                "API version usage analytics via /metrics endpoint",
                "Deprecation headers on all v1 responses",
            ],
            migration_steps: vec![
                MigrationStep {
                    step: 1,
                    title: "Update base URL",
                    description: "Replace /api/v1/ with /api/v2/ in all API calls.",
                },
                MigrationStep {
                    step: 2,
                    title: "Handle new response fields",
                    description: "Update response parsing to handle new optional fields: dispute_eligible, active_dispute.",
                },
                MigrationStep {
                    step: 3,
                    title: "Implement dispute handling",
                    description: "Integrate the new dispute management endpoints for payment dispute workflows.",
                },
                MigrationStep {
                    step: 4,
                    title: "Update error handling",
                    description: "The error response shape is unchanged. No action required.",
                },
            ],
            documentation_url: "https://docs.blinks.app/api/migration/v1-to-v2",
        };
        assert(guide@ =~= v1_guide_model());
        Ok(guide)
    } else if same_text(version, "v2") {
        Err(
            ApiError::BadRequest(owned("v2 is the latest version. No migration guide available.")),
        )
    } else {
        Err(ApiError::NotFound(join3("API version '", version, "' not found")))
    }
}

/// The first version is deprecated, with a sunset date and the guide to the
/// next; the second is current and has neither. What the first offers the
/// second offers too. The guide leads from the one to the other, in numbered
/// steps.
pub proof fn law_versions_follow_each_other(i: int)
    ensures
        v1_model().version == "v1"@,
        v2_model().version == "v2"@,
        v1_model().status == VersionStatus::Deprecated,
        v1_model().sunset == Some("2027-01-01"@),
        v1_model().migration_guide == Some("/api/versions/v1/migration"@),
        v2_model().status == VersionStatus::Current,
        v2_model().sunset is None,
        v2_model().migration_guide is None,
        v1_model().released == "2026-01-20"@,
        v2_model().released == "2026-05-01"@,
        0 <= i < v1_model().features.len() ==> v2_model().features.contains(
            v1_model().features[i],
        ),
        v1_model().features.len() == 7,
        v2_model().features.len() == 10,
        v1_guide_model().from_version == v1_model().version,
        v1_guide_model().to_version == v2_model().version,
        0 <= i < v1_guide_model().migration_steps.len()
            ==> v1_guide_model().migration_steps[i].step == i + 1,
        v1_guide_model().migration_steps.len() == 4,
        v1_guide_model().breaking_changes.len() == 2,
        v1_guide_model().documentation_url == "https://docs.blinks.app/api/migration/v1-to-v2"@,
{
    let a = v1_model().features;
    let b = v2_model().features;
    assert(b[0] == a[0]);
    assert(b[2] == a[1]);
    assert(b[3] == a[2]);
    assert(b[4] == a[3]);
    assert(b[5] == a[4]);
    assert(b[6] == a[5]);
    assert(b[7] == a[6]);
}

} // verus!
