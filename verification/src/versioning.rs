//! API versions: which one a path asks for, and what a response says of it.
use crate::text::chars_of;
use crate::text::join3;
use crate::text::same_text;
use crate::text::text_of;
use vstd::prelude::*;

verus! {

/// Supported API versions
#[derive(Clone, Copy, Debug, PartialEq, Eq, PartialOrd, Ord, Structural)]
pub enum ApiVersion {
    V1,
    V2,
}

impl ApiVersion {
    /// The version as it stands in a path.
    pub open spec fn name(self) -> Seq<char> {
        match self {
            ApiVersion::V1 => "v1"@,
            ApiVersion::V2 => "v2"@,
        }
    }

    /// The version as it stands in a path.
    pub fn as_str(&self) -> (r: &'static str)
        ensures
            r@ == self.name(),
    {
        match self {
            ApiVersion::V1 => "v1",
            ApiVersion::V2 => "v2",
        }
    }

    /// Whether this version is deprecated
    pub fn is_deprecated(&self) -> (r: bool)
        ensures
            r == (*self == ApiVersion::V1),
    {
        matches!(self, ApiVersion::V1)
    }

    /// Sunset date for deprecated versions (RFC 7231 HTTP-date format)
    pub fn sunset_date(&self) -> (r: Option<&'static str>)
        ensures
            crate::text::opt_text(r) == match self {
                ApiVersion::V1 => Some("Fri, 01 Jan 2027 00:00:00 GMT"@),
                ApiVersion::V2 => None,
            },
    {
        match self {
            ApiVersion::V1 => Some("Fri, 01 Jan 2027 00:00:00 GMT"),
            ApiVersion::V2 => None,
        }
    }

    /// Migration guide URL for deprecated versions
    pub fn migration_guide_url(&self) -> (r: Option<&'static str>)
        ensures
            crate::text::opt_text(r) == match self {
                ApiVersion::V1 => Some("https://docs.blinks.app/api/migration/v1-to-v2"@),
                ApiVersion::V2 => None,
            },
    {
        match self {
            ApiVersion::V1 => Some("https://docs.blinks.app/api/migration/v1-to-v2"),
            ApiVersion::V2 => None,
        }
    }

    /// Parse version from path segment (e.g. "v1", "v2")
    pub fn from_path_segment(segment: &str) -> (r: Option<ApiVersion>)
        ensures
            r == segment_version(segment@),
    {
        proof {
            reveal_strlit("v1");
            reveal_strlit("v2");
            assert("v1"@[1] != "v2"@[1]);
        }
        if same_text(segment, "v1") {
            Some(ApiVersion::V1)
        } else if same_text(segment, "v2") {
            Some(ApiVersion::V2)
        } else {
            None
        }
    }
}

/// The version that a path segment names, if it names one.
pub open spec fn segment_version(segment: Seq<char>) -> Option<ApiVersion> {
    if segment == "v1"@ {
        Some(ApiVersion::V1)
    } else if segment == "v2"@ {
        Some(ApiVersion::V2)
    } else {
        None
    }
}

/// The version that the first segment of a path to name one names, if any
/// does. Segments are what stands between slashes.
pub open spec fn path_version(path: Seq<char>) -> Option<ApiVersion>
    decreases path.len(),
{
    match path.index_of_first('/') {
        None => segment_version(path),
        Some(k) => if 0 <= k < path.len() {
            match segment_version(path.subrange(0, k)) {
                Some(version) => Some(version),
                None => path_version(path.subrange(k + 1, path.len() as int)),
            }
        } else {
            None
        },
    }
}

/// The version that a request is for: the one its path names, else the first.
pub open spec fn requested_version(path: Seq<char>) -> ApiVersion {
    match path_version(path) {
        Some(version) => version,
        None => ApiVersion::V1,
    }
}

/// The next slash at or after a place.
fn next_slash(chars: &Vec<char>, start: usize) -> (r: Option<usize>)
    requires
        start <= chars@.len(),
    ensures
        match r {
            Some(k) => start <= k < chars@.len() && chars@.subrange(
                start as int,
                chars@.len() as int,
            ).index_of_first('/') == Some(k - start),
            None => chars@.subrange(start as int, chars@.len() as int).index_of_first('/') is None,
        },
{
    let ghost rest = chars@.subrange(start as int, chars@.len() as int);
    let mut k: usize = start;
    while k < chars.len()
        invariant
            start <= k <= chars@.len(),
            rest == chars@.subrange(start as int, chars@.len() as int),
            forall|j: int| 0 <= j < k - start ==> rest[j] != '/',
        decreases chars@.len() - k,
    {
        if chars[k] == '/' {
            proof {
                rest.index_of_first_ensures('/');
                assert(rest[k - start] == '/');
                assert(rest.contains('/'));
            }
            return Some(k);
        }
        assert(rest[k - start] != '/');
        k = k + 1;
    }
    proof {
        rest.index_of_first_ensures('/');
    }
    None
}

/// The characters between two places.
fn slice_text(chars: &Vec<char>, start: usize, end: usize) -> (r: String)
    requires
        start <= end <= chars@.len(),
    ensures
        r@ == chars@.subrange(start as int, end as int),
{
    let mut out: Vec<char> = Vec::new();
    let mut i: usize = start;
    while i < end
        invariant
            start <= i <= end <= chars@.len(),
            out@ == chars@.subrange(start as int, i as int),
        decreases end - i,
    {
        out.push(chars[i]);
        i = i + 1;
        assert(out@ =~= chars@.subrange(start as int, i as int));
    }
    text_of(&out)
}

/// Extracts the API version from a path: the one that its first segment to
/// name one names, else the first version.
pub fn extract_version_from_path(path: &str) -> (r: ApiVersion)
    ensures
        r == requested_version(path@),
{
    let chars = chars_of(path);
    let count: usize = chars.len();
    let ghost len = count as int;
    let mut start: usize = 0;
    assert(chars@.subrange(0, len) =~= chars@);
    loop
        invariant
            start <= chars@.len(),
            chars@ == path@,
            len == count == chars@.len(),
            path_version(path@) == path_version(chars@.subrange(start as int, len)),
        decreases len - start,
    {
        let ghost rest = chars@.subrange(start as int, len);
        match next_slash(&chars, start) {
            Some(k) => {
                let segment = slice_text(&chars, start, k);
                proof {
                    assert(segment@ =~= rest.subrange(0, k - start));
                    assert(rest.subrange(k - start + 1, rest.len() as int) =~= chars@.subrange(
                        k + 1,
                        len,
                    ));
                }
                match ApiVersion::from_path_segment(segment.as_str()) {
                    Some(version) => {
                        return version;
                    },
                    None => {},
                }
                start = k + 1;
            },
            None => {
                let segment = slice_text(&chars, start, count);
                match ApiVersion::from_path_segment(segment.as_str()) {
                    Some(version) => {
                        return version;
                    },
                    None => {
                        return ApiVersion::V1;
                    },
                }
            },
        }
    }
}

/// The headers that say which version answered, and what becomes of it.
#[derive(Debug)]
pub struct VersionHeaders {
    pub version: &'static str,
    pub deprecation: Option<&'static str>,
    pub sunset: Option<&'static str>,
    pub link: Option<String>,
}

/// The headers of a response to a request for the path.
pub fn version_headers(path: &str) -> (r: VersionHeaders)
    ensures
        ({
            let version = requested_version(path@);
            &&& r.version@ == version.name()
            &&& crate::text::opt_text(r.deprecation) == match version {
                ApiVersion::V1 => Some("true"@),
                ApiVersion::V2 => None,
            }
            &&& crate::text::opt_text(r.sunset) == match version {
                ApiVersion::V1 => Some("Fri, 01 Jan 2027 00:00:00 GMT"@),
                ApiVersion::V2 => None,
            }
            &&& crate::text::opt_string(r.link) == match version {
                ApiVersion::V1 => Some(
                    "<"@ + "https://docs.blinks.app/api/migration/v1-to-v2"@
                        + ">; rel=\"deprecation\""@,
                ),
                ApiVersion::V2 => None,
            }
        }),
{
    let version = extract_version_from_path(path);
    if version.is_deprecated() {
        let link = match version.migration_guide_url() {
            Some(url) => Some(join3("<", url, ">; rel=\"deprecation\"")),
            None => None,
        };
        VersionHeaders {
            version: version.as_str(),
            deprecation: Some("true"),
            sunset: version.sunset_date(),
            link,
        }
    } else {
        VersionHeaders { version: version.as_str(), deprecation: None, sunset: None, link: None }
    }
}

/// A path asks for the version that its first segment names, if that segment
/// names one, and otherwise for what the rest of the path asks for. A path
/// without a version in it asks for the first.
pub proof fn law_first_version_in_path(segment: Seq<char>, rest: Seq<char>)
    requires
        !segment.contains('/'),
    ensures
        segment == "v1"@ ==> requested_version(segment + seq!['/'] + rest) == ApiVersion::V1
            && requested_version(segment) == ApiVersion::V1,
        segment == "v2"@ ==> requested_version(segment + seq!['/'] + rest) == ApiVersion::V2
            && requested_version(segment) == ApiVersion::V2,
        segment != "v1"@ && segment != "v2"@ ==> requested_version(segment + seq!['/'] + rest)
            == requested_version(rest) && requested_version(segment) == ApiVersion::V1,
{
    reveal_strlit("v1");
    reveal_strlit("v2");
    assert("v1"@[1] != "v2"@[1]);
    let path = segment + seq!['/'] + rest;
    let k = segment.len() as int;
    assert(path[k] == '/');
    assert(path.contains('/'));
    path.index_of_first_ensures('/');
    segment.index_of_first_ensures('/');
    let f = path.index_of_first('/')->0;
    if f < k {
        assert(segment[f] == '/');
    }
    assert(f == k);
    assert(path.subrange(0, k) =~= segment);
    assert(path.subrange(k + 1, path.len() as int) =~= rest);
}

/// A version is read back from its own name, and only from it.
pub proof fn law_version_names_round_trip(version: ApiVersion, segment: Seq<char>)
    ensures
        segment_version(version.name()) == Some(version),
        segment_version(segment) == Some(version) ==> segment == version.name(),
{
    reveal_strlit("v1");
    reveal_strlit("v2");
    assert("v1"@[1] != "v2"@[1]);
}

} // verus!
