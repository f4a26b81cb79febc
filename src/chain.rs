//! The supported block explorers and the request for a contract's source.
use vstd::prelude::*;

verus! {

/// Where a chain's explorer API lives and which environment variable holds
/// its key.
pub struct ChainConfig {
    pub api_key_env: &'static str,
    pub api_url: &'static str,
    pub chain_id: i32,
}

/// The explorer entry for an alias already in lower case:
/// (key variable, API base URL, chain id).
pub open spec fn chain_entry(alias: Seq<char>) -> Option<(Seq<char>, Seq<char>, i32)> {
    if alias == "eth"@ {
        Some(("ETHERSCAN_API_KEY"@, "https://api.etherscan.io/api"@, 1i32))
    } else if alias == "base"@ {
        Some(("BASESCAN_API_KEY"@, "https://api.basescan.org/api"@, 8453i32))
    } else {
        None
    }
}

/// `r` is the configuration that `chain_entry` lists for `alias`, and exists
/// exactly when the alias is listed.
pub open spec fn resolves_to(r: Option<ChainConfig>, alias: Seq<char>) -> bool {
    match r {
        Some(c) => chain_entry(alias) == Some((c.api_key_env@, c.api_url@, c.chain_id)),
        None => chain_entry(alias).is_none(),
    }
}

/// An ASCII upper-case letter.
pub open spec fn is_ascii_upper(c: char) -> bool {
    'A' <= c && c <= 'Z'
}

/// Every character of `s` is ASCII.
pub open spec fn all_ascii(s: Seq<char>) -> bool {
    forall|i: int| 0 <= i < s.len() ==> (#[trigger] s[i]) as u32 <= 0x7f
}

/// `s` with each ASCII upper-case letter replaced by its lower-case letter.
pub open spec fn ascii_lower(s: Seq<char>) -> Seq<char> {
    s.map_values(|c: char| if is_ascii_upper(c) { ((c as u32) + 32) as char } else { c })
}

/// The lower-case form of a text, as Unicode defines it.
pub uninterp spec fn lower_of(s: Seq<char>) -> Seq<char>;

/// Relies on str::to_lowercase: the result depends on the characters alone,
/// and on ASCII text it lowers exactly the letters A to Z.
#[verifier::external_body]
fn lowercase(s: &str) -> (r: String)
    ensures
        r@ == lower_of(s@),
        all_ascii(s@) ==> r@ == ascii_lower(s@),
{
    s.to_lowercase()
}

/// Looks up an alias that is already in lower case.
pub fn config_for_lowered(alias: &str) -> (r: Option<ChainConfig>)
    ensures
        resolves_to(r, alias@),
{
    let a = String::from_str(alias);
    if a == String::from_str("eth") {
        Some(ChainConfig {
            api_key_env: "ETHERSCAN_API_KEY",
            api_url: "https://api.etherscan.io/api",
            chain_id: 1,
        })
    } else if a == String::from_str("base") {
        Some(ChainConfig {
            api_key_env: "BASESCAN_API_KEY",
            api_url: "https://api.basescan.org/api",
            chain_id: 8453,
        })
    } else {
        None
    }
}

/// Resolves a chain alias, ignoring case; `None` for an alias that is not
/// supported. Chains are named only by alias: a numeric chain id such as
/// "1" is not accepted.
pub fn get_chain_config(chain: &str) -> (r: Option<ChainConfig>)
    ensures
        resolves_to(r, lower_of(chain@)),
        all_ascii(chain@) ==> resolves_to(r, ascii_lower(chain@)),
{
    let lowered = lowercase(chain);
    config_for_lowered(lowered.as_str())
}

/// The query that asks an explorer for the verified source of `address`.
pub open spec fn request_url(base: Seq<char>, address: Seq<char>, api_key: Seq<char>) -> Seq<char> {
    base + "?module=contract&action=getsourcecode&address="@ + address + "&apikey="@ + api_key
}

/// Builds the source-code request URL for `address` on the explorer of
/// `config`.
pub fn build_url(config: &ChainConfig, address: &str, api_key: &str) -> (r: String)
    ensures
        r@ == request_url(config.api_url@, address@, api_key@),
{
    let mut url = String::from_str(config.api_url);
    url.append("?module=contract&action=getsourcecode&address=");
    url.append(address);
    url.append("&apikey=");
    url.append(api_key);
    url
}

/// Aliases are read without regard to case: two ASCII aliases that differ
/// only in the case of their letters resolve to the same explorer, or are
/// both refused.
pub proof fn lemma_alias_case_insensitive(
    a: Seq<char>,
    b: Seq<char>,
    ra: Option<ChainConfig>,
    rb: Option<ChainConfig>,
)
    requires
        all_ascii(a),
        all_ascii(b),
        ascii_lower(a) == ascii_lower(b),
        resolves_to(ra, ascii_lower(a)),
        resolves_to(rb, ascii_lower(b)),
    ensures
        ra.is_some() == rb.is_some(),
        ra is Some ==> ra->0.api_url@ == rb->0.api_url@ && ra->0.api_key_env@ == rb->0.api_key_env@
            && ra->0.chain_id == rb->0.chain_id,
{
}

} // verus!
