//! The table of POTA endpoints: which HTTP method and path each handler is
//! mounted on, under the `/pota` prefix, and the status it answers on success.

use vstd::prelude::*;

verus! {

/// The HTTP methods that the POTA endpoints answer to.
#[derive(Clone, Copy, Debug, PartialEq, Eq, Structural)]
pub enum HttpMethod {
    Get,
    Post,
    Put,
    Delete,
}

/// One POTA endpoint per request handler.
#[derive(Clone, Copy, Debug, PartialEq, Eq, Structural)]
pub enum PotaEndpoint {
    /// Import the park reference list from an uploaded CSV file.
    ImportReference,
    /// Upload an activator log of a user.
    UploadActivatorLog,
    /// Upload a hunter log of a user.
    UploadHunterLog,
    /// Recent spots.
    Spots,
    /// Recent alerts.
    Alerts,
    /// One page of all park references.
    AllReferences,
    /// Search of park references.
    ReferenceList,
    /// One park reference.
    ShowReference,
    /// Update of a park reference.
    UpdateReference,
    /// Deletion of a park reference.
    DeleteReference,
}

/// The prefix under which every POTA endpoint is mounted.
pub open spec fn spec_pota_prefix() -> Seq<char> {
    "/pota"@
}

/// The method of an endpoint.
pub open spec fn spec_method(e: PotaEndpoint) -> HttpMethod {
    match e {
        PotaEndpoint::ImportReference => HttpMethod::Post,
        PotaEndpoint::UploadActivatorLog => HttpMethod::Post,
        PotaEndpoint::UploadHunterLog => HttpMethod::Post,
        PotaEndpoint::Spots => HttpMethod::Get,
        PotaEndpoint::Alerts => HttpMethod::Get,
        PotaEndpoint::AllReferences => HttpMethod::Get,
        PotaEndpoint::ReferenceList => HttpMethod::Get,
        PotaEndpoint::ShowReference => HttpMethod::Get,
        PotaEndpoint::UpdateReference => HttpMethod::Put,
        PotaEndpoint::DeleteReference => HttpMethod::Delete,
    }
}

/// The path of an endpoint, relative to the prefix.
pub open spec fn spec_path(e: PotaEndpoint) -> Seq<char> {
    match e {
        PotaEndpoint::ImportReference => "/import"@,
        PotaEndpoint::UploadActivatorLog => "/upload/activator/:user_id"@,
        PotaEndpoint::UploadHunterLog => "/upload/hunter/:user_id"@,
        PotaEndpoint::Spots => "/spots"@,
        PotaEndpoint::Alerts => "/alerts"@,
        PotaEndpoint::AllReferences => "/park-list"@,
        PotaEndpoint::ReferenceList => "/park"@,
        PotaEndpoint::ShowReference => "/park/:park_code"@,
        PotaEndpoint::UpdateReference => "/park/:park_code"@,
        PotaEndpoint::DeleteReference => "/park/:park_code"@,
    }
}

/// The status code an endpoint answers with when the operation succeeds, for
/// the endpoints that answer with a bare status; `None` for those that answer
/// with a JSON body.
pub open spec fn spec_success_status(e: PotaEndpoint) -> Option<u16> {
    match e {
        PotaEndpoint::ImportReference => Some(201u16),
        PotaEndpoint::UploadActivatorLog => Some(201u16),
        PotaEndpoint::UploadHunterLog => Some(201u16),
        PotaEndpoint::UpdateReference => Some(201u16),
        PotaEndpoint::DeleteReference => Some(200u16),
        _ => None,
    }
}

/// The endpoints in the order in which the router registers them.
pub open spec fn spec_pota_endpoints() -> Seq<PotaEndpoint> {
    seq![
        PotaEndpoint::ImportReference,
        PotaEndpoint::UploadActivatorLog,
        PotaEndpoint::UploadHunterLog,
        PotaEndpoint::Spots,
        PotaEndpoint::Alerts,
        PotaEndpoint::AllReferences,
        PotaEndpoint::ReferenceList,
        PotaEndpoint::ShowReference,
        PotaEndpoint::UpdateReference,
        PotaEndpoint::DeleteReference,
    ]
}

/// The prefix under which the POTA endpoints are nested.
pub fn pota_prefix() -> (p: &'static str)
    ensures
        p@ == spec_pota_prefix(),
{
    "/pota"
}

/// All POTA endpoints, in the order in which the router registers them.
pub fn pota_endpoints() -> (v: Vec<PotaEndpoint>)
    ensures
        v@ == spec_pota_endpoints(),
{
    let v = vec![
        PotaEndpoint::ImportReference,
        PotaEndpoint::UploadActivatorLog,
        PotaEndpoint::UploadHunterLog,
        PotaEndpoint::Spots,
        PotaEndpoint::Alerts,
        PotaEndpoint::AllReferences,
        PotaEndpoint::ReferenceList,
        PotaEndpoint::ShowReference,
        PotaEndpoint::UpdateReference,
        PotaEndpoint::DeleteReference,
    ];
    assert(v@ =~= spec_pota_endpoints());
    v
}

impl PotaEndpoint {
    /// The HTTP method of this endpoint.
    pub fn method(&self) -> (m: HttpMethod)
        ensures
            m == spec_method(*self),
    {
        match self {
            PotaEndpoint::ImportReference => HttpMethod::Post,
            PotaEndpoint::UploadActivatorLog => HttpMethod::Post,
            PotaEndpoint::UploadHunterLog => HttpMethod::Post,
            PotaEndpoint::Spots => HttpMethod::Get,
            PotaEndpoint::Alerts => HttpMethod::Get,
            PotaEndpoint::AllReferences => HttpMethod::Get,
            PotaEndpoint::ReferenceList => HttpMethod::Get,
            PotaEndpoint::ShowReference => HttpMethod::Get,
            PotaEndpoint::UpdateReference => HttpMethod::Put,
            PotaEndpoint::DeleteReference => HttpMethod::Delete,
        }
    }

    /// The path of this endpoint, relative to the prefix.
    pub fn path(&self) -> (p: &'static str)
        ensures
            p@ == spec_path(*self),
    {
        match self {
            PotaEndpoint::ImportReference => "/import",
            PotaEndpoint::UploadActivatorLog => "/upload/activator/:user_id",
            PotaEndpoint::UploadHunterLog => "/upload/hunter/:user_id",
            PotaEndpoint::Spots => "/spots",
            PotaEndpoint::Alerts => "/alerts",
            PotaEndpoint::AllReferences => "/park-list",
            PotaEndpoint::ReferenceList => "/park",
            PotaEndpoint::ShowReference => "/park/:park_code",
            PotaEndpoint::UpdateReference => "/park/:park_code",
            PotaEndpoint::DeleteReference => "/park/:park_code",
        }
    }

    /// The path of this endpoint with the prefix in front.
    pub fn full_path(&self) -> (p: String)
        ensures
            p@ == spec_pota_prefix() + spec_path(*self),
    {
        let prefix: String = pota_prefix().to_owned();
        prefix.concat(self.path())
    }

    /// The status code this endpoint answers with on success, where it
    /// answers with a bare status.
    pub fn success_status(&self) -> (s: Option<u16>)
        ensures
            s == spec_success_status(*self),
            s is Some <==> spec_method(*self) != HttpMethod::Get,
            s == Some(200u16) <==> spec_method(*self) == HttpMethod::Delete,
            s == Some(201u16) <==> (spec_method(*self) == HttpMethod::Post || spec_method(*self)
                == HttpMethod::Put),
    {
        proof {
            lemma_status_follows_method(*self);
        }
        match self {
            PotaEndpoint::ImportReference => Some(201u16),
            PotaEndpoint::UploadActivatorLog => Some(201u16),
            PotaEndpoint::UploadHunterLog => Some(201u16),
            PotaEndpoint::UpdateReference => Some(201u16),
            PotaEndpoint::DeleteReference => Some(200u16),
            _ => None,
        }
    }
}

/// No two endpoints share both method and path, so the router never sees
/// two handlers for one route.
pub proof fn lemma_routes_distinct(a: PotaEndpoint, b: PotaEndpoint)
    requires
        a != b,
    ensures
        spec_method(a) != spec_method(b) || spec_path(a) != spec_path(b),
{
    reveal_strlit("/import");
    reveal_strlit("/upload/activator/:user_id");
    reveal_strlit("/upload/hunter/:user_id");
    reveal_strlit("/spots");
    reveal_strlit("/alerts");
    reveal_strlit("/park-list");
    reveal_strlit("/park");
    reveal_strlit("/park/:park_code");
    if spec_method(a) == spec_method(b) {
        assert(spec_path(a).len() != spec_path(b).len());
    }
}

/// The endpoints that change data answer with a bare status and those that
/// read answer with a body: an endpoint has a success status exactly when its
/// method is not GET; deletion answers 200, creation and update (POST, PUT)
/// answer 201. By name: the import, the two log uploads and the update
/// answer 201, the deletion 200, and spots, alerts and the three reference
/// reads answer with a body.
pub proof fn lemma_status_follows_method(e: PotaEndpoint)
    ensures
        spec_success_status(e) is Some <==> spec_method(e) != HttpMethod::Get,
        spec_success_status(e) == Some(200u16) <==> spec_method(e) == HttpMethod::Delete,
        spec_success_status(e) == Some(201u16) <==> (spec_method(e) == HttpMethod::Post
            || spec_method(e) == HttpMethod::Put),
        spec_success_status(e) == Some(201u16) <==> (e == PotaEndpoint::ImportReference || e
            == PotaEndpoint::UploadActivatorLog || e == PotaEndpoint::UploadHunterLog || e
            == PotaEndpoint::UpdateReference),
        spec_success_status(e) == Some(200u16) <==> e == PotaEndpoint::DeleteReference,
        spec_success_status(e) is None <==> (e == PotaEndpoint::Spots || e == PotaEndpoint::Alerts
            || e == PotaEndpoint::AllReferences || e == PotaEndpoint::ReferenceList || e
            == PotaEndpoint::ShowReference),
{
}

/// Every path is non-empty and starts with `/`, as the router demands of
/// the paths it is given.
pub proof fn lemma_paths_rooted(e: PotaEndpoint)
    ensures
        spec_path(e).len() > 0,
        spec_path(e)[0] == '/',
        (spec_pota_prefix() + spec_path(e)).len() > spec_pota_prefix().len(),
        (spec_pota_prefix() + spec_path(e))[spec_pota_prefix().len() as int] == '/',
{
    reveal_strlit("/pota");
    reveal_strlit("/import");
    reveal_strlit("/upload/activator/:user_id");
    reveal_strlit("/upload/hunter/:user_id");
    reveal_strlit("/spots");
    reveal_strlit("/alerts");
    reveal_strlit("/park-list");
    reveal_strlit("/park");
    reveal_strlit("/park/:park_code");
}

/// The router registers every endpoint, and none twice.
pub proof fn lemma_endpoints_each_once(e: PotaEndpoint)
    ensures
        spec_pota_endpoints().contains(e),
        spec_pota_endpoints().no_duplicates(),
{
    let s = spec_pota_endpoints();
    let i: int = match e {
        PotaEndpoint::ImportReference => 0,
        PotaEndpoint::UploadActivatorLog => 1,
        PotaEndpoint::UploadHunterLog => 2,
        PotaEndpoint::Spots => 3,
        PotaEndpoint::Alerts => 4,
        PotaEndpoint::AllReferences => 5,
        PotaEndpoint::ReferenceList => 6,
        PotaEndpoint::ShowReference => 7,
        PotaEndpoint::UpdateReference => 8,
        PotaEndpoint::DeleteReference => 9,
    };
    assert(s[i] == e);
    assert forall|j: int, k: int| 0 <= j < s.len() && 0 <= k < s.len() && j != k implies s[j] != s[k] by {
        assert(0 <= j < 10 && 0 <= k < 10);
    }
}

} // verus!
