use vstd::prelude::*;
use vstd::string::StringExecFns;

verus! {

/// The fixed user-agent header value sent with every fetch request.
pub fn user_agent() -> (r: &'static str)
    ensures
        r@ == "Sheets FDW"@,
{
    "Sheets FDW"
}

/// The fixed value of the `x-datasource-auth` marker header.
pub fn datasource_auth_marker() -> (r: &'static str)
    ensures
        r@ == "true"@,
{
    "true"
}

/// The request URL for one scan: the sheet set's visualization endpoint asking
/// for JSON output, with the optional sub-sheet as a `gid` query parameter.
pub open spec fn spec_url(base: Seq<char>, sid: Seq<char>, gid: Option<Seq<char>>) -> Seq<char> {
    match gid {
        Some(g) => base + "/"@ + sid + "/gviz/tq?tqx=out:json"@ + "&gid="@ + g,
        None => base + "/"@ + sid + "/gviz/tq?tqx=out:json"@,
    }
}

/// Composes the request URL from the base URL, the sheet-set identifier and
/// the optional sub-sheet identifier, as `spec_url` says.
pub fn build_url(base: &str, sid: &str, gid: Option<&String>) -> (r: String)
    ensures
        r@ == spec_url(
            base@,
            sid@,
            match gid {
                Some(g) => Some(g@),
                None => None,
            },
        ),
{
    let mut url = String::from_str(base);
    url.append("/");
    url.append(sid);
    url.append("/gviz/tq?tqx=out:json");
    match gid {
        Some(g) => {
            url.append("&gid=");
            url.append(g.as_str());
        },
        None => {},
    }
    url
}

/// The fixed scope the credential exchange asks for: read-only spreadsheet
/// access.
pub fn oauth_scope() -> (r: &'static str)
    ensures
        r@ == "https://www.googleapis.com/auth/spreadsheets.readonly"@,
{
    "https://www.googleapis.com/auth/spreadsheets.readonly"
}

/// The `Authorization` header value carrying the acquired bearer token.
pub fn bearer_header(token: &str) -> (r: String)
    ensures
        r@ == "Bearer "@ + token@,
{
    let mut h = String::from_str("Bearer ");
    h.append(token);
    h
}

} // verus!
