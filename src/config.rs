use vstd::prelude::*;

verus! {

/// The publisher's canonical manifest endpoint.
pub open spec fn default_manifest_url() -> Seq<char> {
    "https://piston-meta.mojang.com/mc/game/version_manifest_v2.json"@
}

/// The manifest endpoint used when no setting overrides it.
pub fn default_download_url() -> (r: String)
    ensures
        r@ == default_manifest_url(),
{
    String::from_str("https://piston-meta.mojang.com/mc/game/version_manifest_v2.json")
}

/// The manifest endpoint to fetch: the configured setting where one is given,
/// else the publisher's default.
pub fn manifest_url(setting: Option<String>) -> (r: String)
    ensures
        r@ == match setting {
            Some(s) => s@,
            None => default_manifest_url(),
        },
{
    match setting {
        Some(s) => s,
        None => default_download_url(),
    }
}

} // verus!
