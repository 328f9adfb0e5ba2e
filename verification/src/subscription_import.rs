//! Assembling an import from the request and what was read for it: the
//! validated name, description, options and policy, the screened nodes and
//! the document the content becomes.
use vstd::prelude::*;

use crate::domain::{
    RemoteRequestOptions, RemoteRequestOptionsView, SubscriptionDocumentView, SubscriptionSource,
    SubscriptionSourceView, SubscriptionUpdatePolicy,
};
use crate::subscription::{ParseResult, SubscriptionFormat};
use crate::subscription_management::{
    adopt_profile_interval, document_for_body, timeout_ok, update_policy_ok, user_agent_ok,
    validate_description, validate_remote_import_options, validate_subscription_name,
    validate_update_policy, RemoteImportOptions, SubscriptionOperationError,
};
use crate::subscription_update::{FetchResult, ImportCommit};
use crate::text::{has_ctrl, trim_seq};

verus! {

/// The name and description of an import, trimmed, or the refusal: a name
/// of 1 to 80 characters, then a description of at most 280 characters
/// without control characters.
pub open spec fn import_texts(name: Seq<char>, description: Seq<char>) -> Result<
    (Seq<char>, Seq<char>),
    SubscriptionOperationError,
> {
    let n = trim_seq(name);
    let d = trim_seq(description);
    if !(1 <= n.len() <= 80) {
        Err(SubscriptionOperationError::InvalidInput)
    } else if !(d.len() <= 280 && !has_ctrl(d)) {
        Err(SubscriptionOperationError::InvalidInput)
    } else {
        Ok((n, d))
    }
}

/// The document content of the given format becomes: JSON and Clash YAML
/// stay editable, URI lists and Base64 do not.
pub open spec fn document_of(format: SubscriptionFormat, content: Seq<char>) -> Option<SubscriptionDocumentView> {
    match format {
        SubscriptionFormat::Json => Some(
            SubscriptionDocumentView {
                format: crate::domain::SubscriptionDocumentFormat::Json,
                content,
                local_override: false,
            },
        ),
        SubscriptionFormat::ClashYaml => Some(
            SubscriptionDocumentView {
                format: crate::domain::SubscriptionDocumentFormat::Yaml,
                content,
                local_override: false,
            },
        ),
        _ => None,
    }
}

/// The document of a commit, as a plain value.
pub open spec fn commit_document(c: ImportCommit) -> Option<SubscriptionDocumentView> {
    match c.document {
        Some(d) => Some(d@),
        None => None,
    }
}

/// Assembles the import of manual `content` as `name` and `description`,
/// with the content screened already ([`crate::clash_document::parse_content`]).
/// The name is checked first, then the description, then the screening.
pub fn manual_import_commit(
    name: String,
    description: String,
    content: String,
    screened: Result<ParseResult, SubscriptionOperationError>,
) -> (r: Result<ImportCommit, SubscriptionOperationError>)
    ensures
        match import_texts(name@, description@) {
            Err(e) => r == Err::<ImportCommit, SubscriptionOperationError>(e),
            Ok((n, d)) => match screened {
                Err(e) => r == Err::<ImportCommit, SubscriptionOperationError>(e),
                Ok(p) => r matches Ok(c) && (c.name@ == n && c.description@ == d && c.source@
                    == SubscriptionSourceView::Manual && c.remote_request is None && c.update_policy
                    == (SubscriptionUpdatePolicy { allow_auto_update: false, interval_minutes: None })
                    && c.parsed == p && commit_document(c) == document_of(p.format, content@)
                    && c.http_metadata is None && c.expected_initially_empty is None),
            },
        },
{
    let name = validate_subscription_name(name)?;
    let description = validate_description(description)?;
    let parsed = screened?;
    let document = document_for_body(content, parsed.format);
    Ok(ImportCommit {
        name,
        description,
        source: SubscriptionSource::Manual,
        remote_request: None,
        update_policy: SubscriptionUpdatePolicy::manual(),
        parsed,
        document,
        http_metadata: None,
        expected_initially_empty: None,
    })
}

/// What a remote import settles before fetching.
pub struct RemoteImportPlan {
    pub name: String,
    pub description: String,
    pub remote_request: RemoteRequestOptions,
    pub update_policy: SubscriptionUpdatePolicy,
}

/// The request options a valid import asks for.
pub open spec fn requested_options(options: RemoteImportOptions) -> RemoteRequestOptionsView {
    RemoteRequestOptionsView {
        user_agent: options.user_agent.deep_view(),
        timeout_seconds: options.timeout_seconds,
        proxy_mode: options.proxy_mode,
        verify_tls: options.verify_tls,
    }
}

/// The checks of a remote import before its fetch, in order: name,
/// description, the URL (judged by the fetcher), the request options, then
/// the update policy.
pub open spec fn remote_import_checks(
    name: Seq<char>,
    description: Seq<char>,
    url_accepted: bool,
    options: RemoteImportOptions,
) -> Result<(Seq<char>, Seq<char>), SubscriptionOperationError> {
    match import_texts(name, description) {
        Err(e) => Err(e),
        Ok(t) => if !url_accepted {
            Err(SubscriptionOperationError::InvalidInput)
        } else if !(timeout_ok(options.timeout_seconds) && (match options.user_agent {
            Some(u) => user_agent_ok(u@),
            None => true,
        })) {
            Err(SubscriptionOperationError::InvalidOptions)
        } else if !update_policy_ok(options.interval_minutes) {
            Err(SubscriptionOperationError::InvalidOptions)
        } else {
            Ok(t)
        },
    }
}

/// Settles a remote import before its fetch, given whether the fetcher
/// accepts its URL.
pub fn plan_remote_import(
    name: String,
    description: String,
    url_accepted: bool,
    options: &RemoteImportOptions,
) -> (r: Result<RemoteImportPlan, SubscriptionOperationError>)
    ensures
        match remote_import_checks(name@, description@, url_accepted, *options) {
            Err(e) => r matches Err(f) && f == e,
            Ok((n, d)) => r matches Ok(p) && (p.name@ == n && p.description@ == d && p.remote_request@
                == requested_options(*options) && p.update_policy == (SubscriptionUpdatePolicy {
                allow_auto_update: options.allow_auto_update,
                interval_minutes: options.interval_minutes,
            })),
        },
{
    let name = validate_subscription_name(name)?;
    let description = validate_description(description)?;
    if !url_accepted {
        return Err(SubscriptionOperationError::InvalidInput);
    }
    let remote_request = validate_remote_import_options(options)?;
    let update_policy = validate_update_policy(options.allow_auto_update, options.interval_minutes)?;
    Ok(RemoteImportPlan { name, description, remote_request, update_policy })
}

/// The policy an import keeps once the profile's interval is known: an
/// automatic policy without its own interval takes the profile's.
pub open spec fn adopted_policy(p: SubscriptionUpdatePolicy, profile: Option<u32>) -> SubscriptionUpdatePolicy {
    SubscriptionUpdatePolicy {
        allow_auto_update: p.allow_auto_update,
        interval_minutes: if p.allow_auto_update && p.interval_minutes is None {
            profile
        } else {
            p.interval_minutes
        },
    }
}

/// Assembles the import of `url` from what its fetch answered and the body
/// screened already: an answer without a body leaves nothing to import.
pub fn remote_import_commit(
    plan: RemoteImportPlan,
    url: String,
    fetched: FetchResult,
    initially_empty: bool,
    screened: Result<ParseResult, SubscriptionOperationError>,
) -> (r: Result<ImportCommit, SubscriptionOperationError>)
    ensures
        match fetched {
            FetchResult::NotModified { .. } => r == Err::<ImportCommit, SubscriptionOperationError>(
                SubscriptionOperationError::CacheUnavailable,
            ),
            FetchResult::Modified { body, metadata, profile_update_interval_minutes, .. } => match screened {
                Err(e) => r == Err::<ImportCommit, SubscriptionOperationError>(e),
                Ok(p) => r matches Ok(c) && (c.name == plan.name && c.description == plan.description
                    && c.source@ == (SubscriptionSourceView::Remote { url: url@ }) && c.remote_request
                    == Some(plan.remote_request) && c.update_policy == adopted_policy(
                    plan.update_policy,
                    profile_update_interval_minutes,
                ) && c.parsed == p && commit_document(c) == document_of(p.format, body@) && c.http_metadata
                    == Some(metadata) && c.expected_initially_empty == Some(initially_empty)),
            },
        },
{
    let (body, metadata, profile) = match fetched {
        FetchResult::Modified { body, metadata, profile_update_interval_minutes, .. } => (
            body,
            metadata,
            profile_update_interval_minutes,
        ),
        FetchResult::NotModified { .. } => {
            return Err(SubscriptionOperationError::CacheUnavailable);
        },
    };
    let mut update_policy = plan.update_policy;
    adopt_profile_interval(&mut update_policy, profile);
    let parsed = screened?;
    let document = document_for_body(body, parsed.format);
    Ok(ImportCommit {
        name: plan.name,
        description: plan.description,
        source: SubscriptionSource::Remote { url },
        remote_request: Some(plan.remote_request),
        update_policy,
        parsed,
        document,
        http_metadata: Some(metadata),
        expected_initially_empty: Some(initially_empty),
    })
}

} // verus!
