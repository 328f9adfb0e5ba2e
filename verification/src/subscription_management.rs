//! Subscription records as the user interface lists them, and the rules for
//! editing and updating them.
use vstd::prelude::*;

use crate::digest::{sha256, sha256_digest};
use crate::domain::{
    AppState, AppStateView, ExactEq, ProviderView, ProxyNodeView, SubscriptionSource,
    SubscriptionView, ExactClone, RemoteRequestOptions, RemoteRequestOptionsView, SubscriptionDocument,
    SubscriptionDocumentFormat, SubscriptionHttpMetadata, SubscriptionProxyMode, SubscriptionTraffic,
    SubscriptionUpdatePolicy, MAX_SAFE_INTEGER,
};
use crate::provider_replacement::ProviderReplacementError;
use crate::state_access::StateAccessError;
use crate::subscription::SubscriptionFormat;
use crate::validation::valid_state;
use crate::text::{string_from_range, chars_of, contains_control, has_ctrl, hex_seq, push_hex, str_eq, trim, trim_seq};

verus! {

/// Where a subscription's content comes from.
#[derive(Clone, Copy, Debug, PartialEq, Eq, Structural)]
pub enum SubscriptionSourceKind {
    Remote,
    Manual,
}

/// A subscription as the user interface lists it.
#[derive(Clone, Debug, PartialEq, Eq)]
pub struct SubscriptionSummary {
    pub id: String,
    pub name: String,
    pub description: String,
    pub source_kind: SubscriptionSourceKind,
    pub node_count: usize,
    pub skipped_node_count: u32,
    pub last_success_at_ms: Option<u64>,
    pub traffic: Option<SubscriptionTraffic>,
    pub allow_auto_update: bool,
    pub update_interval_minutes: Option<u32>,
    pub active: bool,
    pub active_configuration_generation: Option<u64>,
    pub shareable: bool,
}

/// Mathematical view of [`SubscriptionSummary`].
pub ghost struct SubscriptionSummaryView {
    pub id: Seq<char>,
    pub name: Seq<char>,
    pub description: Seq<char>,
    pub source_kind: SubscriptionSourceKind,
    pub node_count: usize,
    pub skipped_node_count: u32,
    pub last_success_at_ms: Option<u64>,
    pub traffic: Option<SubscriptionTraffic>,
    pub allow_auto_update: bool,
    pub update_interval_minutes: Option<u32>,
    pub active: bool,
    pub active_configuration_generation: Option<u64>,
    pub shareable: bool,
}

impl DeepView for SubscriptionSummary {
    type V = SubscriptionSummaryView;

    open spec fn deep_view(&self) -> SubscriptionSummaryView {
        SubscriptionSummaryView {
            id: self.id@,
            name: self.name@,
            description: self.description@,
            source_kind: self.source_kind,
            node_count: self.node_count,
            skipped_node_count: self.skipped_node_count,
            last_success_at_ms: self.last_success_at_ms,
            traffic: self.traffic,
            allow_auto_update: self.allow_auto_update,
            update_interval_minutes: self.update_interval_minutes,
            active: self.active,
            active_configuration_generation: self.active_configuration_generation,
            shareable: self.shareable,
        }
    }
}


/// Why a subscription operation failed.
#[derive(Clone, Copy, Debug, PartialEq, Eq, Structural)]
pub enum SubscriptionOperationError {
    InvalidInput,
    Busy,
    FetchFailed,
    ParseFailed,
    NormalizationFailed,
    ValidationFailed,
    SaveFailed,
    StateUnavailable,
    NotFound,
    CacheUnavailable,
    IdentityFailed,
    InvalidOptions,
    UnsupportedClashProviders,
    ProxyUnavailable,
    SystemProxyUnavailable,
    ReferenceConflict,
    NotShareable,
}

/// Why an operation on a subscription's document failed.
#[derive(Clone, Copy, Debug, PartialEq, Eq, Structural)]
pub enum DocumentOperationError {
    InvalidInput,
    ContentTooLarge,
    FormatFailed,
    ParseFailed,
    UnsupportedNodes,
    UnsupportedClashProviders,
    NormalizationFailed,
    ValidationFailed,
    DocumentConflict,
    DocumentUnavailable,
    NotFound,
    StateUnavailable,
    SaveFailed,
    Busy,
    OperationTimedOut,
}

/// Import options of a remote subscription.
#[derive(Clone, Debug, PartialEq, Eq)]
pub struct RemoteImportOptions {
    pub user_agent: Option<String>,
    pub timeout_seconds: u16,
    pub proxy_mode: SubscriptionProxyMode,
    pub verify_tls: bool,
    pub allow_auto_update: bool,
    pub interval_minutes: Option<u32>,
}

/// An edit of the user agent.
#[derive(Clone, Debug, PartialEq, Eq)]
pub enum UserAgentEdit {
    Clear,
    Replace(String),
}

/// An edit of the remote request options; absent fields stay.
#[derive(Clone, Debug, PartialEq, Eq)]
pub struct RemoteRequestPatch {
    pub user_agent: Option<UserAgentEdit>,
    pub timeout_seconds: Option<u16>,
    pub proxy_mode: Option<SubscriptionProxyMode>,
    pub verify_tls: Option<bool>,
}

/// An edit of the update policy; absent fields stay, `Some(None)` clears the
/// interval.
#[derive(Clone, Copy, Debug, PartialEq, Eq, Structural)]
pub struct UpdatePolicyPatch {
    pub allow_auto_update: Option<bool>,
    pub interval_minutes: Option<Option<u32>>,
}

/// Shortest automatic update interval, in minutes (one day).
pub const MIN_UPDATE_INTERVAL_MINUTES: u32 = 1440;

/// An update policy: the interval, if set, is at least a day.
pub open spec fn update_policy_ok(interval_minutes: Option<u32>) -> bool {
    match interval_minutes {
        Some(m) => m >= MIN_UPDATE_INTERVAL_MINUTES,
        None => true,
    }
}

/// Builds an update policy if its interval is allowed.
pub fn validate_update_policy(allow_auto_update: bool, interval_minutes: Option<u32>) -> (r: Result<
    SubscriptionUpdatePolicy,
    SubscriptionOperationError,
>)
    ensures
        update_policy_ok(interval_minutes) ==> r == Ok::<SubscriptionUpdatePolicy, SubscriptionOperationError>(
            SubscriptionUpdatePolicy { allow_auto_update, interval_minutes },
        ),
        !update_policy_ok(interval_minutes) ==> r == Err::<SubscriptionUpdatePolicy, SubscriptionOperationError>(
            SubscriptionOperationError::InvalidOptions,
        ),
{
    if let Some(minutes) = interval_minutes {
        if minutes < MIN_UPDATE_INTERVAL_MINUTES {
            return Err(SubscriptionOperationError::InvalidOptions);
        }
    }
    Ok(SubscriptionUpdatePolicy { allow_auto_update, interval_minutes })
}

/// Applies an update-policy edit; an invalid result leaves the policy as it was.
pub fn apply_update_policy_patch(value: &mut SubscriptionUpdatePolicy, patch: UpdatePolicyPatch) -> (r: Result<
    (),
    SubscriptionOperationError,
>)
    ensures
        ({
            let allow = match patch.allow_auto_update {
                Some(a) => a,
                None => old(value).allow_auto_update,
            };
            let interval = match patch.interval_minutes {
                Some(i) => i,
                None => old(value).interval_minutes,
            };
            if update_policy_ok(interval) {
                r is Ok && *final(value) == (SubscriptionUpdatePolicy { allow_auto_update: allow, interval_minutes: interval })
            } else {
                r == Err::<(), SubscriptionOperationError>(SubscriptionOperationError::InvalidOptions)
                    && *final(value) == *old(value)
            }
        }),
{
    let allow = match patch.allow_auto_update {
        Some(a) => a,
        None => value.allow_auto_update,
    };
    let interval = match patch.interval_minutes {
        Some(i) => i,
        None => value.interval_minutes,
    };
    *value = validate_update_policy(allow, interval)?;
    Ok(())
}

/// Takes the interval a subscription profile announces, but only when the
/// user enabled automatic updates and left the interval empty.
pub fn adopt_profile_interval(value: &mut SubscriptionUpdatePolicy, profile_update_interval_minutes: Option<u32>)
    ensures
        final(value).allow_auto_update == old(value).allow_auto_update,
        final(value).interval_minutes == (if old(value).allow_auto_update && old(value).interval_minutes is None {
            profile_update_interval_minutes
        } else {
            old(value).interval_minutes
        }),
{
    if value.allow_auto_update && value.interval_minutes.is_none() {
        value.interval_minutes = profile_update_interval_minutes;
    }
}

/// A custom user agent: 1 to 256 bytes, each printable ASCII.
pub open spec fn user_agent_ok(v: Seq<char>) -> bool {
    let b = vstd::utf8::encode_utf8(v);
    1 <= b.len() <= 256 && forall|i: int| 0 <= i < b.len() ==> 0x20 <= #[trigger] b[i] <= 0x7e
}

/// Checks a custom user agent.
#[verifier::loop_isolation(false)]
pub fn validate_user_agent(value: Option<String>) -> (r: Result<Option<String>, SubscriptionOperationError>)
    ensures
        match value {
            None => r == Ok::<Option<String>, SubscriptionOperationError>(None),
            Some(v) => if user_agent_ok(v@) {
                r matches Ok(Some(w)) && w@ == v@
            } else {
                r == Err::<Option<String>, SubscriptionOperationError>(SubscriptionOperationError::InvalidOptions)
            },
        },
{
    let v = match value {
        None => return Ok(None),
        Some(v) => v,
    };
    let bytes = v.as_str().as_bytes();
    if bytes.len() < 1 || bytes.len() > 256 {
        return Err(SubscriptionOperationError::InvalidOptions);
    }
    let mut i: usize = 0;
    while i < bytes.len()
        invariant
            i <= bytes.len(),
            bytes@ == vstd::utf8::encode_utf8(v@),
            forall|k: int| 0 <= k < i ==> 0x20 <= #[trigger] bytes@[k] <= 0x7e,
        decreases bytes.len() - i,
    {
        if bytes[i] < 0x20 || bytes[i] > 0x7e {
            proof {
                assert(!(0x20 <= bytes@[i as int] <= 0x7e));
            }
            return Err(SubscriptionOperationError::InvalidOptions);
        }
        i = i + 1;
    }
    Ok(Some(v))
}

/// A request timeout: 5 to 120 seconds.
pub open spec fn timeout_ok(t: u16) -> bool {
    5 <= t <= 120
}

/// The stored request options of a remote import, if its options are valid.
pub fn validate_remote_import_options(value: &RemoteImportOptions) -> (r: Result<
    RemoteRequestOptions,
    SubscriptionOperationError,
>)
    ensures
        match r {
            Ok(o) => timeout_ok(value.timeout_seconds) && (match value.user_agent {
                Some(u) => user_agent_ok(u@),
                None => true,
            }) && o.user_agent.deep_view() == value.user_agent.deep_view() && o.timeout_seconds
                == value.timeout_seconds && o.proxy_mode == value.proxy_mode && o.verify_tls == value.verify_tls,
            Err(e) => e == SubscriptionOperationError::InvalidOptions && !(timeout_ok(value.timeout_seconds) && (match value.user_agent {
                Some(u) => user_agent_ok(u@),
                None => true,
            })),
        },
{
    if value.timeout_seconds < 5 || value.timeout_seconds > 120 {
        return Err(SubscriptionOperationError::InvalidOptions);
    }
    let user_agent = validate_user_agent(value.user_agent.exact_clone())?;
    Ok(RemoteRequestOptions {
        user_agent,
        timeout_seconds: value.timeout_seconds,
        proxy_mode: value.proxy_mode,
        verify_tls: value.verify_tls,
    })
}

/// Applies a request-options edit in field order: the user agent, then the
/// timeout, then the proxy mode and TLS verification. The first invalid
/// field ends the edit with the fields before it already applied.
pub fn apply_remote_patch(value: &mut RemoteRequestOptions, patch: RemoteRequestPatch) -> (r: Result<
    (),
    SubscriptionOperationError,
>)
    ensures
        ({
            let ua_ok = match patch.user_agent {
                Some(UserAgentEdit::Replace(u)) => user_agent_ok(u@),
                _ => true,
            };
            let ua = match patch.user_agent {
                None => old(value).user_agent.deep_view(),
                Some(UserAgentEdit::Clear) => None,
                Some(UserAgentEdit::Replace(u)) => Some(u@),
            };
            let to_ok = match patch.timeout_seconds {
                Some(t) => timeout_ok(t),
                None => true,
            };
            if !ua_ok {
                r == Err::<(), SubscriptionOperationError>(SubscriptionOperationError::InvalidOptions)
                    && final(value).deep_view() == old(value).deep_view()
            } else if !to_ok {
                r == Err::<(), SubscriptionOperationError>(SubscriptionOperationError::InvalidOptions)
                    && final(value).deep_view() == (RemoteRequestOptionsView { user_agent: ua, ..old(value).deep_view() })
            } else {
                r is Ok && final(value).deep_view() == (RemoteRequestOptionsView {
                    user_agent: ua,
                    timeout_seconds: match patch.timeout_seconds {
                        Some(t) => t,
                        None => old(value).timeout_seconds,
                    },
                    proxy_mode: match patch.proxy_mode {
                        Some(m) => m,
                        None => old(value).proxy_mode,
                    },
                    verify_tls: match patch.verify_tls {
                        Some(v) => v,
                        None => old(value).verify_tls,
                    },
                })
            }
        }),
{
    if let Some(user_agent) = patch.user_agent {
        value.user_agent = match user_agent {
            UserAgentEdit::Clear => None,
            UserAgentEdit::Replace(v) => validate_user_agent(Some(v))?,
        };
    }
    if let Some(timeout) = patch.timeout_seconds {
        if timeout < 5 || timeout > 120 {
            return Err(SubscriptionOperationError::InvalidOptions);
        }
        value.timeout_seconds = timeout;
    }
    if let Some(proxy_mode) = patch.proxy_mode {
        value.proxy_mode = proxy_mode;
    }
    if let Some(verify_tls) = patch.verify_tls {
        value.verify_tls = verify_tls;
    }
    Ok(())
}

/// The next configuration generation, within the safe integer range.
pub fn next_generation(current: u64) -> (r: Result<u64, SubscriptionOperationError>)
    ensures
        current + 1 <= MAX_SAFE_INTEGER ==> r == Ok::<u64, SubscriptionOperationError>((current + 1) as u64),
        current + 1 > MAX_SAFE_INTEGER ==> r == Err::<u64, SubscriptionOperationError>(
            SubscriptionOperationError::ValidationFailed,
        ),
{
    if current >= MAX_SAFE_INTEGER {
        Err(SubscriptionOperationError::ValidationFailed)
    } else {
        Ok(current + 1)
    }
}

/// A subscription id as a request names it: 1 to 128 bytes, no surrounding
/// whitespace.
pub open spec fn subscription_id_ok(id: Seq<char>) -> bool {
    let n = vstd::utf8::encode_utf8(id).len();
    1 <= n <= 128 && trim_seq(id) == id
}

/// Checks a subscription id.
pub fn validate_id(id: &str) -> (r: Result<(), SubscriptionOperationError>)
    ensures
        r is Ok <==> subscription_id_ok(id@),
        r is Err ==> r == Err::<(), SubscriptionOperationError>(SubscriptionOperationError::InvalidInput),
{
    let n = id.as_bytes().len();
    if n == 0 || n > 128 || !str_eq(trim(id).as_str(), id) {
        return Err(SubscriptionOperationError::InvalidInput);
    }
    Ok(())
}

/// Trims a subscription name and checks that it has 1 to 80 characters.
pub fn validate_subscription_name(name: String) -> (r: Result<String, SubscriptionOperationError>)
    ensures
        ({
            let t = trim_seq(name@);
            if 1 <= t.len() <= 80 {
                r matches Ok(v) && v@ == t
            } else {
                r == Err::<String, SubscriptionOperationError>(SubscriptionOperationError::InvalidInput)
            }
        }),
{
    let t = trim(name.as_str());
    let n = t.as_str().unicode_len();
    if n < 1 || n > 80 {
        return Err(SubscriptionOperationError::InvalidInput);
    }
    Ok(t)
}

/// Trims a description and checks that it has at most 280 characters and no
/// control character.
pub fn validate_description(value: String) -> (r: Result<String, SubscriptionOperationError>)
    ensures
        ({
            let t = trim_seq(value@);
            if t.len() <= 280 && !has_ctrl(t) {
                r matches Ok(v) && v@ == t
            } else {
                r == Err::<String, SubscriptionOperationError>(SubscriptionOperationError::InvalidInput)
            }
        }),
{
    let t = trim(value.as_str());
    let chars = chars_of(t.as_str());
    if chars.len() > 280 || contains_control(&chars) {
        return Err(SubscriptionOperationError::InvalidInput);
    }
    Ok(t)
}

/// A document revision: 64 lower-case hexadecimal digits.
pub open spec fn document_revision_ok(v: Seq<char>) -> bool {
    let b = vstd::utf8::encode_utf8(v);
    b.len() == 64 && forall|i: int|
        0 <= i < b.len() ==> (0x30 <= #[trigger] b[i] <= 0x39 || 0x61 <= b[i] <= 0x66)
}

/// Checks a document revision.
#[verifier::loop_isolation(false)]
pub fn validate_document_revision(value: &str) -> (r: Result<(), DocumentOperationError>)
    ensures
        r is Ok <==> document_revision_ok(value@),
        r is Err ==> r == Err::<(), DocumentOperationError>(DocumentOperationError::InvalidInput),
{
    let bytes = value.as_bytes();
    if bytes.len() != 64 {
        return Err(DocumentOperationError::InvalidInput);
    }
    let mut i: usize = 0;
    while i < bytes.len()
        invariant
            i <= bytes.len(),
            bytes@ == vstd::utf8::encode_utf8(value@),
            forall|k: int| 0 <= k < i ==> (0x30 <= #[trigger] bytes@[k] <= 0x39 || 0x61 <= bytes@[k] <= 0x66),
        decreases bytes.len() - i,
    {
        let b = bytes[i];
        if !((0x30 <= b && b <= 0x39) || (0x61 <= b && b <= 0x66)) {
            proof {
                assert(!(0x30 <= bytes@[i as int] <= 0x39 || 0x61 <= bytes@[i as int] <= 0x66));
            }
            return Err(DocumentOperationError::InvalidInput);
        }
        i = i + 1;
    }
    Ok(())
}

/// The HTTP metadata kept after a fetch: validators from the response, and
/// from before only when they still belong to the same source; quota and
/// file name from the response, else from before.
pub fn merge_metadata(
    previous: SubscriptionHttpMetadata,
    response: SubscriptionHttpMetadata,
    validators_match_source: bool,
) -> (r: SubscriptionHttpMetadata)
    ensures
        r.etag.deep_view() == (if validators_match_source && response.etag is None {
            previous.etag.deep_view()
        } else {
            response.etag.deep_view()
        }),
        r.last_modified.deep_view() == (if validators_match_source && response.last_modified is None {
            previous.last_modified.deep_view()
        } else {
            response.last_modified.deep_view()
        }),
        r.subscription_userinfo == (if response.subscription_userinfo is None {
            previous.subscription_userinfo
        } else {
            response.subscription_userinfo
        }),
        r.content_disposition.deep_view() == (if response.content_disposition is None {
            previous.content_disposition.deep_view()
        } else {
            response.content_disposition.deep_view()
        }),
{
    SubscriptionHttpMetadata {
        etag: if validators_match_source && response.etag.is_none() {
            previous.etag
        } else {
            response.etag
        },
        last_modified: if validators_match_source && response.last_modified.is_none() {
            previous.last_modified
        } else {
            response.last_modified
        },
        subscription_userinfo: if response.subscription_userinfo.is_none() {
            previous.subscription_userinfo
        } else {
            response.subscription_userinfo
        },
        content_disposition: if response.content_disposition.is_none() {
            previous.content_disposition
        } else {
            response.content_disposition
        },
    }
}

/// The hexadecimal suffix of a generated subscription id.
pub fn identity_suffix(bytes: &Vec<u8>) -> (r: String)
    ensures
        r@ == hex_seq(bytes@),
{
    let mut suffix = String::new();
    push_hex(&mut suffix, bytes);
    suffix
}

/// A state gate failure as a subscription failure.
pub fn map_access_error(error: StateAccessError) -> (r: SubscriptionOperationError)
    ensures
        r == match error {
            StateAccessError::Busy => SubscriptionOperationError::Busy,
            StateAccessError::Unavailable => SubscriptionOperationError::StateUnavailable,
        },
{
    match error {
        StateAccessError::Busy => SubscriptionOperationError::Busy,
        StateAccessError::Unavailable => SubscriptionOperationError::StateUnavailable,
    }
}

/// A state gate failure as a document failure.
pub fn map_document_access_error(error: StateAccessError) -> (r: DocumentOperationError)
    ensures
        r == match error {
            StateAccessError::Busy => DocumentOperationError::Busy,
            StateAccessError::Unavailable => DocumentOperationError::StateUnavailable,
        },
{
    match error {
        StateAccessError::Busy => DocumentOperationError::Busy,
        StateAccessError::Unavailable => DocumentOperationError::StateUnavailable,
    }
}

/// A node replacement failure as a subscription failure.
pub fn map_replacement_error(error: ProviderReplacementError) -> (r: SubscriptionOperationError)
    ensures
        r == match error {
            ProviderReplacementError::RejectedBatch => SubscriptionOperationError::ParseFailed,
            ProviderReplacementError::MissingProvider => SubscriptionOperationError::ValidationFailed,
            ProviderReplacementError::State(_) => SubscriptionOperationError::ValidationFailed,
            ProviderReplacementError::Normalize(_) => SubscriptionOperationError::NormalizationFailed,
            ProviderReplacementError::Store(_) => SubscriptionOperationError::SaveFailed,
        },
{
    match error {
        ProviderReplacementError::RejectedBatch => SubscriptionOperationError::ParseFailed,
        ProviderReplacementError::MissingProvider | ProviderReplacementError::State(_) => {
            SubscriptionOperationError::ValidationFailed
        },
        ProviderReplacementError::Normalize(_) => SubscriptionOperationError::NormalizationFailed,
        ProviderReplacementError::Store(_) => SubscriptionOperationError::SaveFailed,
    }
}

/// A node replacement failure as a document failure.
pub fn map_document_replacement_error(error: ProviderReplacementError) -> (r: DocumentOperationError)
    ensures
        r == match error {
            ProviderReplacementError::RejectedBatch => DocumentOperationError::ParseFailed,
            ProviderReplacementError::MissingProvider => DocumentOperationError::ValidationFailed,
            ProviderReplacementError::State(_) => DocumentOperationError::ValidationFailed,
            ProviderReplacementError::Normalize(_) => DocumentOperationError::NormalizationFailed,
            ProviderReplacementError::Store(_) => DocumentOperationError::SaveFailed,
        },
{
    match error {
        ProviderReplacementError::RejectedBatch => DocumentOperationError::ParseFailed,
        ProviderReplacementError::MissingProvider | ProviderReplacementError::State(_) => {
            DocumentOperationError::ValidationFailed
        },
        ProviderReplacementError::Normalize(_) => DocumentOperationError::NormalizationFailed,
        ProviderReplacementError::Store(_) => DocumentOperationError::SaveFailed,
    }
}

/// The document failure a subscription failure reports.
pub open spec fn document_error_of(error: SubscriptionOperationError) -> DocumentOperationError {
    match error {
        SubscriptionOperationError::InvalidInput | SubscriptionOperationError::InvalidOptions => DocumentOperationError::InvalidInput,
        SubscriptionOperationError::Busy => DocumentOperationError::Busy,
        SubscriptionOperationError::ParseFailed => DocumentOperationError::ParseFailed,
        SubscriptionOperationError::NormalizationFailed => DocumentOperationError::NormalizationFailed,
        SubscriptionOperationError::ValidationFailed => DocumentOperationError::ValidationFailed,
        SubscriptionOperationError::SaveFailed => DocumentOperationError::SaveFailed,
        SubscriptionOperationError::StateUnavailable => DocumentOperationError::StateUnavailable,
        SubscriptionOperationError::NotFound => DocumentOperationError::NotFound,
        SubscriptionOperationError::UnsupportedClashProviders => DocumentOperationError::UnsupportedClashProviders,
        _ => DocumentOperationError::ValidationFailed,
    }
}

/// Maps a subscription failure onto a document failure.
pub fn map_document_subscription_error(error: SubscriptionOperationError) -> (r: DocumentOperationError)
    ensures
        r == document_error_of(error),
{
    match error {
        SubscriptionOperationError::InvalidInput | SubscriptionOperationError::InvalidOptions => DocumentOperationError::InvalidInput,
        SubscriptionOperationError::Busy => DocumentOperationError::Busy,
        SubscriptionOperationError::ParseFailed => DocumentOperationError::ParseFailed,
        SubscriptionOperationError::NormalizationFailed => DocumentOperationError::NormalizationFailed,
        SubscriptionOperationError::ValidationFailed => DocumentOperationError::ValidationFailed,
        SubscriptionOperationError::SaveFailed => DocumentOperationError::SaveFailed,
        SubscriptionOperationError::StateUnavailable => DocumentOperationError::StateUnavailable,
        SubscriptionOperationError::NotFound => DocumentOperationError::NotFound,
        SubscriptionOperationError::UnsupportedClashProviders => DocumentOperationError::UnsupportedClashProviders,
        _ => DocumentOperationError::ValidationFailed,
    }
}

/// The document a fetched body becomes: JSON and Clash YAML bodies are kept
/// as editable documents; URI lists and Base64 bodies are not.
pub fn document_for_body(content: String, format: SubscriptionFormat) -> (r: Option<SubscriptionDocument>)
    ensures
        match format {
            SubscriptionFormat::Json => r matches Some(d) && d.format == SubscriptionDocumentFormat::Json
                && d.content@ == content@ && !d.local_override,
            SubscriptionFormat::ClashYaml => r matches Some(d) && d.format == SubscriptionDocumentFormat::Yaml
                && d.content@ == content@ && !d.local_override,
            _ => r is None,
        },
{
    let format = match format {
        SubscriptionFormat::Json => SubscriptionDocumentFormat::Json,
        SubscriptionFormat::ClashYaml => SubscriptionDocumentFormat::Yaml,
        _ => return None,
    };
    Some(SubscriptionDocument { format, content, local_override: false })
}

/// The bytes whose digest is a document's revision: a fixed label, the
/// format's name, and the content.
pub open spec fn revision_material(format: SubscriptionDocumentFormat, content: Seq<char>) -> Seq<u8> {
    vstd::utf8::encode_utf8("veyra-subscription-document-v1"@) + seq![0u8] + vstd::utf8::encode_utf8(
        match format {
            SubscriptionDocumentFormat::Json => "json"@,
            SubscriptionDocumentFormat::Yaml => "yaml"@,
        },
    ) + seq![0u8] + vstd::utf8::encode_utf8(content)
}

fn push_bytes(out: &mut Vec<u8>, bytes: &[u8])
    ensures
        final(out)@ == old(out)@ + bytes@,
{
    let ghost start = out@;
    let mut i: usize = 0;
    while i < bytes.len()
        invariant
            i <= bytes.len(),
            out@ == start + bytes@.take(i as int),
        decreases bytes.len() - i,
    {
        out.push(bytes[i]);
        proof {
            assert(bytes@.take(i + 1) =~= bytes@.take(i as int).push(bytes@[i as int]));
        }
        i = i + 1;
    }
    proof {
        assert(bytes@.take(bytes.len() as int) =~= bytes@);
    }
}

/// The revision of a document: the hexadecimal SHA-256 digest of its
/// labelled format and content.
pub fn revision_for(format: SubscriptionDocumentFormat, content: &str) -> (r: String)
    ensures
        r@ == hex_seq(sha256_digest(revision_material(format, content@))),
{
    let mut material: Vec<u8> = Vec::new();
    push_bytes(&mut material, "veyra-subscription-document-v1".as_bytes());
    material.push(0u8);
    let name = match format {
        SubscriptionDocumentFormat::Json => "json",
        SubscriptionDocumentFormat::Yaml => "yaml",
    };
    push_bytes(&mut material, name.as_bytes());
    material.push(0u8);
    push_bytes(&mut material, content.as_bytes());
    proof {
        assert(material@ =~= revision_material(format, content@));
    }
    let digest = sha256(material.as_slice());
    let mut r = String::new();
    push_hex(&mut r, &digest);
    r
}


// ---------------------------------------------------------------------------
// Listing subscriptions
// ---------------------------------------------------------------------------

/// Name shown for a subscription whose name is blank.
pub open spec fn fallback_name() -> Seq<char> {
    "本地订阅"@
}

/// The name shown for a subscription: trimmed, at most 80 characters, and a
/// fixed fallback for a blank name.
pub open spec fn display_name(name: Seq<char>) -> Seq<char> {
    let t = trim_seq(name);
    if t.len() == 0 {
        fallback_name()
    } else if t.len() > 80 {
        t.take(80)
    } else {
        t
    }
}

/// The name shown for a subscription.
pub fn safe_display_name(name: &str) -> (r: String)
    ensures
        r@ == display_name(name@),
{
    let t = chars_of(trim(name).as_str());
    if t.len() == 0 {
        return String::from_str("本地订阅");
    }
    let n = if t.len() > 80 {
        80
    } else {
        t.len()
    };
    let r = string_from_range(&t, 0, n);
    proof {
        assert(t@.subrange(0, n as int) =~= (if t@.len() > 80 {
            t@.take(80)
        } else {
            t@
        }));
    }
    r
}

/// The ids of the providers of subscription `id`.
pub open spec fn providers_of(providers: Seq<ProviderView>, id: Seq<char>) -> Set<Seq<char>> {
    Set::new(|p: Seq<char>| exists|k: int| 0 <= k < providers.len() && (#[trigger] providers[k]).subscription_id == id && providers[k].id == p)
}

/// How many nodes belong to one of the providers `pids`.
pub open spec fn count_nodes_of(nodes: Seq<ProxyNodeView>, pids: Set<Seq<char>>) -> nat
    decreases nodes.len(),
{
    if nodes.len() == 0 {
        0
    } else {
        count_nodes_of(nodes.drop_last(), pids) + if pids.contains(nodes.last().provider_id) {
            1nat
        } else {
            0nat
        }
    }
}

/// The listing of subscription `sub` within `s`.
pub open spec fn summary_of(s: AppStateView, sub: SubscriptionView) -> SubscriptionSummaryView {
    let active = s.active_subscription_id == Some(sub.id);
    SubscriptionSummaryView {
        id: sub.id,
        name: display_name(sub.name),
        description: sub.description,
        source_kind: if sub.source is Remote {
            SubscriptionSourceKind::Remote
        } else {
            SubscriptionSourceKind::Manual
        },
        node_count: count_nodes_of(s.nodes, providers_of(s.providers, sub.id)) as usize,
        skipped_node_count: sub.skipped_unsupported_nodes,
        last_success_at_ms: sub.last_success_at_ms,
        traffic: match sub.http_metadata {
            Some(m) => m.subscription_userinfo,
            None => None,
        },
        allow_auto_update: sub.update_policy.allow_auto_update,
        update_interval_minutes: sub.update_policy.interval_minutes,
        active,
        active_configuration_generation: if active {
            Some(s.active_configuration_generation)
        } else {
            None
        },
        shareable: sub.source is Remote,
    }
}

fn provider_of_subscription(state: &AppState, provider_id: &String, sub_id: &String) -> (r: bool)
    ensures
        r == providers_of(state@.providers, sub_id@).contains(provider_id@),
{
    let mut k: usize = 0;
    while k < state.providers.len()
        invariant
            k <= state.providers.len(),
            forall|j: int| 0 <= j < k ==> !((#[trigger] state@.providers[j]).subscription_id == sub_id@
                && state@.providers[j].id == provider_id@),
        decreases state.providers.len() - k,
    {
        let p = &state.providers[k];
        if p.subscription_id.0.same(sub_id) && p.id.0.same(provider_id) {
            proof {
                assert(state@.providers[k as int].subscription_id == sub_id@);
            }
            return true;
        }
        k = k + 1;
    }
    false
}

/// The listing of the subscription at `index`.
pub fn summary_for(state: &AppState, index: usize) -> (r: SubscriptionSummary)
    requires
        index < state.subscriptions.len(),
    ensures
        r.deep_view() == summary_of(state@, state@.subscriptions[index as int]),
{
    let sub = &state.subscriptions[index];
    let ghost pids = providers_of(state@.providers, sub.id@);
    let mut count: usize = 0;
    let mut i: usize = 0;
    while i < state.nodes.len()
        invariant
            i <= state.nodes.len(),
            count == count_nodes_of(state@.nodes.take(i as int), pids),
            count <= i,
            pids == providers_of(state@.providers, sub.id@),
        decreases state.nodes.len() - i,
    {
        proof {
            assert(state@.nodes.take(i + 1).drop_last() =~= state@.nodes.take(i as int));
        }
        if provider_of_subscription(state, &state.nodes[i].provider_id.0, &sub.id.0) {
            count = count + 1;
        }
        i = i + 1;
    }
    proof {
        assert(state@.nodes.take(state.nodes.len() as int) =~= state@.nodes);
    }
    let active = match &state.active_subscription_id {
        Some(a) => a.0.same(&sub.id.0),
        None => false,
    };
    let remote = match &sub.source {
        SubscriptionSource::Remote { .. } => true,
        SubscriptionSource::Manual => false,
    };
    SubscriptionSummary {
        id: sub.id.0.exact_clone(),
        name: safe_display_name(sub.name.as_str()),
        description: sub.description.exact_clone(),
        source_kind: if remote {
            SubscriptionSourceKind::Remote
        } else {
            SubscriptionSourceKind::Manual
        },
        node_count: count,
        skipped_node_count: sub.skipped_unsupported_nodes,
        last_success_at_ms: sub.last_success_at_ms,
        traffic: match &sub.http_metadata {
            Some(m) => m.subscription_userinfo,
            None => None,
        },
        allow_auto_update: sub.update_policy.allow_auto_update,
        update_interval_minutes: sub.update_policy.interval_minutes,
        active,
        active_configuration_generation: if active {
            Some(state.active_configuration_generation)
        } else {
            None
        },
        shareable: remote,
    }
}

/// The listing of every subscription of a valid state, in order.
pub fn summaries(state: &AppState) -> (r: Result<Vec<SubscriptionSummary>, SubscriptionOperationError>)
    ensures
        match r {
            Ok(v) => valid_state(state@) && v@.len() == state@.subscriptions.len() && forall|k: int|
                0 <= k < v@.len() ==> (#[trigger] v@[k]).deep_view() == summary_of(state@, state@.subscriptions[k]),
            Err(e) => e == SubscriptionOperationError::ValidationFailed && !valid_state(state@),
        },
{
    if state.validate().is_err() {
        return Err(SubscriptionOperationError::ValidationFailed);
    }
    let mut v: Vec<SubscriptionSummary> = Vec::new();
    let mut i: usize = 0;
    while i < state.subscriptions.len()
        invariant
            i <= state.subscriptions.len(),
            v@.len() == i,
            forall|k: int| 0 <= k < i ==> (#[trigger] v@[k]).deep_view() == summary_of(state@, state@.subscriptions[k]),
        decreases state.subscriptions.len() - i,
    {
        v.push(summary_for(state, i));
        i = i + 1;
    }
    Ok(v)
}


/// Request options as the settings view shows them; never the user agent.
#[derive(Clone, Copy, Debug, PartialEq, Eq, Structural)]
pub struct RemoteRequestSettings {
    pub timeout_seconds: u16,
    pub proxy_mode: SubscriptionProxyMode,
    pub verify_tls: bool,
}

/// The update policy as the settings view shows it.
#[derive(Clone, Copy, Debug, PartialEq, Eq, Structural)]
pub struct UpdatePolicySettings {
    pub allow_auto_update: bool,
    pub interval_minutes: Option<u32>,
}

/// The editable settings of one subscription, with its source URL reduced
/// to a preview.
#[derive(Clone, Debug, PartialEq, Eq)]
pub struct SubscriptionSettings {
    pub id: String,
    pub name: String,
    pub description: String,
    pub source_kind: SubscriptionSourceKind,
    pub url_preview: Option<String>,
    pub has_custom_user_agent: bool,
    pub remote_request: Option<RemoteRequestSettings>,
    pub update_policy: UpdatePolicySettings,
    pub shareable: bool,
}

/// The preview of a source URL: its origin and path, without credentials,
/// query or fragment; none for a text that is no URL or has no host.
pub open spec fn url_preview_of(url: Seq<char>) -> Option<Seq<char>> {
    match crate::weburl::url_parse(url) {
        Some(p) => if p.host is Some {
            Some(p.origin + p.path)
        } else {
            None
        },
        None => None,
    }
}

/// The preview of a source URL.
pub fn safe_url_preview(value: &str) -> (r: Option<String>)
    ensures
        r.deep_view() == url_preview_of(value@),
{
    let parts = match crate::weburl::parse_url(value) {
        Some(p) => p,
        None => {
            return None;
        },
    };
    if parts.host.is_none() {
        return None;
    }
    let mut preview = String::new();
    crate::text::push_all(&mut preview, parts.origin.as_str());
    crate::text::push_all(&mut preview, parts.path.as_str());
    proof {
        assert(preview@ =~= parts.origin@ + parts.path@);
    }
    Some(preview)
}

/// The settings of a subscription: its shown name, its source kind and URL
/// preview (remote sources only are shareable), whether a custom user
/// agent is set, and its request options and update policy.
pub fn settings_for(subscription: &crate::domain::Subscription) -> (r: SubscriptionSettings)
    ensures
        r.id@ == subscription.id@,
        r.name@ == display_name(subscription.name@),
        r.description@ == subscription.description@,
        r.shareable == subscription.source is Remote,
        r.source_kind == (if subscription.source is Remote { SubscriptionSourceKind::Remote } else { SubscriptionSourceKind::Manual }),
        r.url_preview.deep_view() == match subscription.source {
            SubscriptionSource::Remote { url } => url_preview_of(url@),
            SubscriptionSource::Manual => None,
        },
        r.has_custom_user_agent == (subscription.remote_request matches Some(o) && o.user_agent is Some),
        r.remote_request == match subscription.remote_request {
            Some(o) => Some(RemoteRequestSettings { timeout_seconds: o.timeout_seconds, proxy_mode: o.proxy_mode, verify_tls: o.verify_tls }),
            None => None,
        },
        r.update_policy == (UpdatePolicySettings {
            allow_auto_update: subscription.update_policy.allow_auto_update,
            interval_minutes: subscription.update_policy.interval_minutes,
        }),
{
    let (url_preview, shareable) = match &subscription.source {
        SubscriptionSource::Remote { url } => (safe_url_preview(url.as_str()), true),
        SubscriptionSource::Manual => (None, false),
    };
    SubscriptionSettings {
        id: subscription.id.0.exact_clone(),
        name: safe_display_name(subscription.name.as_str()),
        description: subscription.description.exact_clone(),
        source_kind: if shareable { SubscriptionSourceKind::Remote } else { SubscriptionSourceKind::Manual },
        url_preview,
        has_custom_user_agent: match &subscription.remote_request {
            Some(o) => o.user_agent.is_some(),
            None => false,
        },
        remote_request: match &subscription.remote_request {
            Some(o) => Some(RemoteRequestSettings { timeout_seconds: o.timeout_seconds, proxy_mode: o.proxy_mode, verify_tls: o.verify_tls }),
            None => None,
        },
        update_policy: UpdatePolicySettings {
            allow_auto_update: subscription.update_policy.allow_auto_update,
            interval_minutes: subscription.update_policy.interval_minutes,
        },
        shareable,
    }
}

} // verus!
