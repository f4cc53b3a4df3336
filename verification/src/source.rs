use vstd::prelude::*;
use vstd::string::StringExecFns;

use crate::config::SourceConfig;

verus! {

/// The query endpoint of the remote document database for the configured
/// database identifier. One POST there, with an empty filter, returns the
/// current full result set (first page only; anything beyond page one is
/// unreachable by design).
pub fn query_url(cfg: &SourceConfig) -> (u: String)
    ensures
        u@ == "https://api.notion.com/v1/databases/"@ + cfg.database@ + "/query"@,
{
    let mut u = String::from_str("https://api.notion.com/v1/databases/");
    u.append(cfg.database.as_str());
    u.append("/query");
    proof {
        assert(("https://api.notion.com/v1/databases/"@ + cfg.database@) + "/query"@
            =~= "https://api.notion.com/v1/databases/"@ + cfg.database@ + "/query"@);
    }
    u
}

/// The JSON body sent with each query: the empty filter, asking for the
/// database's current contents.
pub fn query_body() -> (b: String)
    ensures
        b@ == "{}"@,
{
    String::from_str("{}")
}

/// The value of the authorization header carrying the bearer credential.
pub fn bearer_header(cfg: &SourceConfig) -> (h: String)
    ensures
        h@ == "Bearer "@ + cfg.secret@,
{
    let mut h = String::from_str("Bearer ");
    h.append(cfg.secret.as_str());
    h
}

/// The API version string sent with each query: the configured one when
/// present, else the fixed calendar-versioned default.
pub fn api_version_value(cfg: &SourceConfig) -> (v: String)
    ensures
        cfg.api_version matches Some(s) ==> v@ == s@,
        cfg.api_version is None ==> v@ == "2022-02-22"@,
{
    match &cfg.api_version {
        Some(s) => s.clone(),
        None => String::from_str("2022-02-22"),
    }
}

} // verus!
