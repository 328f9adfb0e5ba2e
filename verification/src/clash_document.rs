//! Screening of imported content before its nodes are taken: the size
//! limits, a Clash document that only points at external providers, and what
//! the node parser must have found.
use vstd::prelude::*;

use crate::subscription::{deduplicate_parsed_nodes, first_connections, ParseResult, ProxyNodeDraftView};
use crate::subscription_management::SubscriptionOperationError;

verus! {

/// The largest content, in bytes, that an import accepts.
pub const MAX_CONTENT_BYTES: usize = 4194304;

/// What `serde_json::from_str` reads of `content` as a `serde_json::Value`,
/// taken down to two sizes: the number of entries of the object under
/// `object_key` and the length of the array under `array_key` (`None` where
/// that member is missing or of another kind). `None` where the content is
/// not JSON.
pub uninterp spec fn json_member_sizes(content: Seq<char>, object_key: Seq<char>, array_key: Seq<char>) -> Option<
    (Option<usize>, Option<usize>),
>;

/// The same two sizes of what `serde_yaml_ng::from_str` reads of `content`
/// as a `serde_json::Value`; `None` where the content is not YAML.
pub uninterp spec fn yaml_member_sizes(content: Seq<char>, object_key: Seq<char>, array_key: Seq<char>) -> Option<
    (Option<usize>, Option<usize>),
>;

/// `serde_json::from_str` into a `serde_json::Value`, then
/// `Value::get`, `Value::as_object` with `Map::len`, and `Value::as_array`
/// with `Vec::len`: the contract names the two sizes as
/// [`json_member_sizes`] of the arguments and claims nothing more of them.
#[verifier::external_body]
fn json_sizes(content: &str, object_key: &str, array_key: &str) -> (r: Option<(Option<usize>, Option<usize>)>)
    ensures
        r == json_member_sizes(content@, object_key@, array_key@),
{
    let value: serde_json::Value = serde_json::from_str(content).ok()?;
    Some((
        value.get(object_key).and_then(serde_json::Value::as_object).map(serde_json::Map::len),
        value.get(array_key).and_then(serde_json::Value::as_array).map(Vec::len),
    ))
}

/// `serde_yaml_ng::from_str` into a `serde_json::Value`, then the same
/// accessors as [`json_sizes`]: the contract names the two sizes as
/// [`yaml_member_sizes`] of the arguments and claims nothing more of them.
#[verifier::external_body]
fn yaml_sizes(content: &str, object_key: &str, array_key: &str) -> (r: Option<(Option<usize>, Option<usize>)>)
    ensures
        r == yaml_member_sizes(content@, object_key@, array_key@),
{
    let value: serde_json::Value = serde_yaml_ng::from_str(content).ok()?;
    Some((
        value.get(object_key).and_then(serde_json::Value::as_object).map(serde_json::Map::len),
        value.get(array_key).and_then(serde_json::Value::as_array).map(Vec::len),
    ))
}

/// The sizes of the `proxy-providers` object and the `proxies` array of a
/// document read as JSON, and else as YAML; `None` where it is neither.
pub open spec fn document_member_sizes(content: Seq<char>) -> Option<(Option<usize>, Option<usize>)> {
    match json_member_sizes(content, "proxy-providers"@, "proxies"@) {
        Some(sizes) => Some(sizes),
        None => yaml_member_sizes(content, "proxy-providers"@, "proxies"@),
    }
}

/// The refusal of `content`: a document that only points at external
/// providers is refused; anything else, unreadable content included, is
/// left to the node parser.
pub open spec fn clash_refusal(content: Seq<char>) -> Option<SubscriptionOperationError> {
    match document_member_sizes(content) {
        Some((providers, proxies)) => if only_external_providers(providers, proxies) {
            Some(SubscriptionOperationError::UnsupportedClashProviders)
        } else {
            None
        },
        None => None,
    }
}

/// A Clash document names external providers (a non-empty
/// `proxy-providers` object) and no proxies of its own (`proxies` missing,
/// not an array, or empty).
pub open spec fn only_external_providers(providers: Option<usize>, proxies: Option<usize>) -> bool {
    (providers matches Some(n) && n > 0) && (proxies matches None || proxies == Some(0usize))
}

/// Decides [`only_external_providers`] from the number of provider entries
/// and of proxies found.
pub fn providers_without_proxies(providers: Option<usize>, proxies: Option<usize>) -> (r: bool)
    ensures
        r == only_external_providers(providers, proxies),
{
    let external = match providers {
        Some(n) => n > 0,
        None => false,
    };
    let own = match proxies {
        Some(n) => n > 0,
        None => false,
    };
    external && !own
}

/// The refusal of a document, read as JSON and else as YAML, that only
/// points at external providers. Content that is neither is not refused
/// here: the node parser judges it.
pub fn clash_document_error(content: &str) -> (r: Option<SubscriptionOperationError>)
    ensures
        r == clash_refusal(content@),
{
    let sizes = match json_sizes(content, "proxy-providers", "proxies") {
        Some(sizes) => sizes,
        None => match yaml_sizes(content, "proxy-providers", "proxies") {
            Some(sizes) => sizes,
            None => {
                return None;
            },
        },
    };
    let (providers, proxies) = sizes;
    if providers_without_proxies(providers, proxies) {
        Some(SubscriptionOperationError::UnsupportedClashProviders)
    } else {
        None
    }
}

/// What importing content makes of what the node parser found: content that
/// is empty or over the limit is invalid input, a document that only points
/// at external providers is refused as `clash_refusal` says, a failed parse
/// or one without a usable node fails, and otherwise the nodes are kept with
/// entries that repeat a connection dropped.
pub open spec fn parsed_content(
    content_len: nat,
    clash_refusal: Option<SubscriptionOperationError>,
    parsed: Option<(crate::subscription::SubscriptionFormat, Seq<ProxyNodeDraftView>)>,
) -> Result<(crate::subscription::SubscriptionFormat, Seq<ProxyNodeDraftView>), SubscriptionOperationError> {
    if content_len == 0 || content_len > MAX_CONTENT_BYTES {
        Err(SubscriptionOperationError::InvalidInput)
    } else {
        match clash_refusal {
            Some(e) => Err(e),
            None => match parsed {
                None => Err(SubscriptionOperationError::ParseFailed),
                Some((format, nodes)) => if nodes.len() == 0 {
                    Err(SubscriptionOperationError::ParseFailed)
                } else {
                    Ok((format, first_connections(nodes)))
                },
            },
        }
    }
}

/// The nodes the parser found, as a plain value.
pub open spec fn parsed_view(parsed: Option<ParseResult>) -> Option<
    (crate::subscription::SubscriptionFormat, Seq<ProxyNodeDraftView>),
> {
    match parsed {
        Some(p) => Some((p.format, p.nodes.deep_view())),
        None => None,
    }
}

/// `r` is what [`parsed_content`] gives on content of `content_len` bytes,
/// with the verdict of the provider check and the parser's outcome.
pub open spec fn screened(
    r: Result<ParseResult, SubscriptionOperationError>,
    content_len: nat,
    clash_refusal: Option<SubscriptionOperationError>,
    parsed: Option<ParseResult>,
) -> bool {
    match parsed_content(content_len, clash_refusal, parsed_view(parsed)) {
        Ok((format, nodes)) => r matches Ok(p) && (p.format == format && p.nodes.deep_view() == nodes
            && (parsed matches Some(q) && p.skipped@ == q.skipped@)),
        Err(e) => r == Err::<ParseResult, SubscriptionOperationError>(e),
    }
}

/// [`parsed_content`] on content of `content_len` bytes, with the verdict of
/// the provider check and the parser's outcome (`None` where it failed) in
/// hand.
pub fn screen_content(
    content_len: usize,
    clash_refusal: Option<SubscriptionOperationError>,
    parsed: Option<ParseResult>,
) -> (r: Result<ParseResult, SubscriptionOperationError>)
    ensures
        screened(r, content_len as nat, clash_refusal, parsed),
{
    if content_len == 0 || content_len > MAX_CONTENT_BYTES {
        return Err(SubscriptionOperationError::InvalidInput);
    }
    if let Some(e) = clash_refusal {
        return Err(e);
    }
    let mut parsed = match parsed {
        Some(p) => p,
        None => {
            return Err(SubscriptionOperationError::ParseFailed);
        },
    };
    if parsed.nodes.len() == 0 {
        return Err(SubscriptionOperationError::ParseFailed);
    }
    deduplicate_parsed_nodes(&mut parsed);
    Ok(parsed)
}

/// Screens imported `content` with the outcome of the node parser on it
/// (`None` where it failed): [`parsed_content`] with the refusal that
/// [`clash_refusal`] reads from the content.
pub fn parse_content(content: &str, parsed: Option<ParseResult>) -> (r: Result<ParseResult, SubscriptionOperationError>)
    ensures
        screened(r, content.len() as nat, clash_refusal(content@), parsed),
{
    let len = content.len();
    let verdict = if len == 0 || len > MAX_CONTENT_BYTES {
        None
    } else {
        clash_document_error(content)
    };
    screen_content(len, verdict, parsed)
}

} // verus!
