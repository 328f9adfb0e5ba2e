//! A subscription's document: reading it with its revision, preparing the
//! save of an edited one (the revision check, the new document and nodes,
//! whether the running configuration must follow) and committing it.
use vstd::prelude::*;

use crate::digest::sha256_digest;
use crate::domain::{
    AppState, AppStateView, ExactClone, ExactEq, ProviderId, SubscriptionDocument,
    SubscriptionDocumentFormat, SubscriptionDocumentView, SubscriptionHttpMetadataView,
    SubscriptionSourceView, SubscriptionView, MAX_SAFE_INTEGER,
};
use crate::provider_replacement::{apply_provider_replacement, provider_replacement, ProviderReplacementError};
use crate::proxy_routing::first_index;
use crate::subscription::{deduplicate_parsed_nodes, first_connections, ParseResult, ProxyNodeDraftView};
use crate::subscription_management::{
    document_revision_ok, map_document_replacement_error, revision_for, revision_material,
    subscription_id_ok, summary_for, summary_of, validate_document_revision, validate_id,
    DocumentOperationError, SubscriptionOperationError, SubscriptionSourceKind, SubscriptionSummary,
};
use crate::subscription_update::{find_subscription, providers_for, providers_of_subscription, subscription_keys, with_subscription};
use crate::text::hex_seq;
use crate::validation::validation_error;

verus! {

/// Why the document parser refused a document.
#[derive(Clone, Copy, Debug, PartialEq, Eq, Structural)]
pub enum DocumentErrorCode {
    InvalidInput,
    ContentTooLarge,
    FormatFailed,
    ParseFailed,
    UnsupportedNodes,
    UnsupportedClashProviders,
    Busy,
    OperationTimedOut,
}

/// A parser refusal as a document failure of the same name.
pub fn map_document_parse_error(code: DocumentErrorCode) -> (r: DocumentOperationError)
    ensures
        r == match code {
            DocumentErrorCode::InvalidInput => DocumentOperationError::InvalidInput,
            DocumentErrorCode::ContentTooLarge => DocumentOperationError::ContentTooLarge,
            DocumentErrorCode::FormatFailed => DocumentOperationError::FormatFailed,
            DocumentErrorCode::ParseFailed => DocumentOperationError::ParseFailed,
            DocumentErrorCode::UnsupportedNodes => DocumentOperationError::UnsupportedNodes,
            DocumentErrorCode::UnsupportedClashProviders => DocumentOperationError::UnsupportedClashProviders,
            DocumentErrorCode::Busy => DocumentOperationError::Busy,
            DocumentErrorCode::OperationTimedOut => DocumentOperationError::OperationTimedOut,
        },
{
    match code {
        DocumentErrorCode::InvalidInput => DocumentOperationError::InvalidInput,
        DocumentErrorCode::ContentTooLarge => DocumentOperationError::ContentTooLarge,
        DocumentErrorCode::FormatFailed => DocumentOperationError::FormatFailed,
        DocumentErrorCode::ParseFailed => DocumentOperationError::ParseFailed,
        DocumentErrorCode::UnsupportedNodes => DocumentOperationError::UnsupportedNodes,
        DocumentErrorCode::UnsupportedClashProviders => DocumentOperationError::UnsupportedClashProviders,
        DocumentErrorCode::Busy => DocumentOperationError::Busy,
        DocumentErrorCode::OperationTimedOut => DocumentOperationError::OperationTimedOut,
    }
}

/// A document save ready to be committed.
pub struct PreparedDocumentSave {
    /// The state to save.
    pub next: AppState,
    /// The revision of the saved document.
    pub document_revision: String,
    pub summary: SubscriptionSummary,
    /// The selected subscription's configuration changed.
    pub requires_apply: bool,
    /// The saved state differs from the state read.
    pub state_changed: bool,
}

/// The revision of a document's content.
pub open spec fn document_revision_of(format: SubscriptionDocumentFormat, content: Seq<char>) -> Seq<char> {
    hex_seq(sha256_digest(revision_material(format, content)))
}

/// A node replacement failure as a document failure.
pub open spec fn document_replacement_error(e: ProviderReplacementError) -> DocumentOperationError {
    match e {
        ProviderReplacementError::RejectedBatch => DocumentOperationError::ParseFailed,
        ProviderReplacementError::MissingProvider => DocumentOperationError::ValidationFailed,
        ProviderReplacementError::State(_) => DocumentOperationError::ValidationFailed,
        ProviderReplacementError::Normalize(_) => DocumentOperationError::NormalizationFailed,
        ProviderReplacementError::Store(_) => DocumentOperationError::SaveFailed,
    }
}

/// The first stage of a document save: the checks, the subscription's
/// position, the state with the new document, the new revision and whether
/// the document changed.
#[verifier::opaque]
pub open spec fn document_stage(
    before: AppStateView,
    id: Seq<char>,
    format: SubscriptionDocumentFormat,
    content: Seq<char>,
    expected_revision: Seq<char>,
    batch: Seq<ProxyNodeDraftView>,
) -> Result<(int, AppStateView, Seq<char>, bool), DocumentOperationError> {
    if !subscription_id_ok(id) || !document_revision_ok(expected_revision) {
        Err(DocumentOperationError::InvalidInput)
    } else if first_connections(batch).len() != batch.len() {
        Err(DocumentOperationError::NormalizationFailed)
    } else {
        match first_index(subscription_keys(before.subscriptions), id) {
            None => Err(DocumentOperationError::NotFound),
            Some(i) => {
                let sub = before.subscriptions[i];
                match sub.document {
                    None => Err(DocumentOperationError::DocumentUnavailable),
                    Some(existing) => if document_revision_of(existing.format, existing.content) != expected_revision {
                        Err(DocumentOperationError::DocumentConflict)
                    } else {
                        let revision = document_revision_of(format, content);
                        let changed = revision != expected_revision;
                        let remote = sub.source is Remote;
                        let updated = SubscriptionView {
                            document: Some(SubscriptionDocumentView {
                                format,
                                content,
                                local_override: if changed && remote { true } else { existing.local_override },
                            }),
                            skipped_unsupported_nodes: 0,
                            http_metadata: if changed && remote {
                                match sub.http_metadata {
                                    Some(m) => Some(SubscriptionHttpMetadataView { etag: None, last_modified: None, ..m }),
                                    None => None,
                                }
                            } else {
                                sub.http_metadata
                            },
                            ..sub
                        };
                        Ok((i, with_subscription(before, i, updated), revision, changed))
                    },
                }
            },
        }
    }
}

/// The second stage: the parsed nodes replace the provider's, and a
/// selected subscription whose document or nodes changed advances the
/// generation.
#[verifier::opaque]
pub open spec fn document_finish(
    s1: AppStateView,
    sub_id: Seq<char>,
    batch: Seq<ProxyNodeDraftView>,
    skipped: nat,
    changed: bool,
) -> Result<(AppStateView, bool), DocumentOperationError> {
    let providers = providers_for(s1, sub_id);
    if providers.len() != 1 {
        Err(DocumentOperationError::ValidationFailed)
    } else {
        match provider_replacement(s1, providers[0].id, batch, skipped) {
            Err(e) => Err(document_replacement_error(e)),
            Ok((s2, nodes_changed)) => {
                let requires_apply = s2.active_subscription_id == Some(sub_id) && (changed || nodes_changed);
                if requires_apply && s2.active_configuration_generation + 1 > MAX_SAFE_INTEGER {
                    Err(DocumentOperationError::ValidationFailed)
                } else {
                    let s3 = if requires_apply {
                        AppStateView { active_configuration_generation: (s2.active_configuration_generation + 1) as u64, ..s2 }
                    } else {
                        s2
                    };
                    if validation_error(s3) is Some {
                        Err(DocumentOperationError::ValidationFailed)
                    } else {
                        Ok((s3, requires_apply))
                    }
                }
            },
        }
    }
}

/// What saving `content` as the document of subscription `id` makes of
/// `before`. The request names the revision it edited; it must be the
/// stored document's. Entries of the document that repeat a connection are
/// refused. A changed document of a remote subscription overrides the
/// fetched one locally and forgets the fetch validators. The parsed nodes
/// replace the provider's, and a selected subscription whose document or
/// nodes changed advances the generation.
pub open spec fn document_save_result(
    before: AppStateView,
    id: Seq<char>,
    format: SubscriptionDocumentFormat,
    content: Seq<char>,
    expected_revision: Seq<char>,
    batch: Seq<ProxyNodeDraftView>,
    skipped: nat,
) -> Result<(AppStateView, Seq<char>, bool), DocumentOperationError> {
    match document_stage(before, id, format, content, expected_revision, batch) {
        Err(e) => Err(e),
        Ok((i, s1, revision, changed)) => match document_finish(
            s1,
            before.subscriptions[i].id,
            first_connections(batch),
            skipped,
            changed,
        ) {
            Err(e) => Err(e),
            Ok((s3, requires_apply)) => Ok((s3, revision, requires_apply)),
        },
    }
}

/// A successful save advances the generation by one exactly when it
/// requires an apply, and it requires one exactly when the saved
/// subscription is the selected one and its document revision or its nodes
/// changed. Re-saving the stored document with the nodes it already has
/// therefore never advances the generation.
pub proof fn law_document_save_generation(
    before: AppStateView,
    id: Seq<char>,
    format: SubscriptionDocumentFormat,
    content: Seq<char>,
    expected_revision: Seq<char>,
    batch: Seq<ProxyNodeDraftView>,
    skipped: nat,
)
    requires
        document_save_result(before, id, format, content, expected_revision, batch, skipped) is Ok,
    ensures
        ({
            let (next, revision, requires_apply) = document_save_result(
                before,
                id,
                format,
                content,
                expected_revision,
                batch,
                skipped,
            )->Ok_0;
            let pid = providers_for(before, id)[0].id;
            &&& next.active_configuration_generation == before.active_configuration_generation + (if requires_apply {
                1int
            } else {
                0int
            })
            &&& requires_apply == (before.active_subscription_id == Some(id) && (revision != expected_revision
                || crate::provider_replacement::nodes_inside(before.nodes, pid)
                != crate::subscription::normalized_nodes(pid, first_connections(batch))))
        }),
{
    reveal(document_stage);
    reveal(document_finish);
    let i = first_index(subscription_keys(before.subscriptions), id)->0;
    crate::proxy_routing::lemma_first_index_some(subscription_keys(before.subscriptions), id);
    assert(before.subscriptions[i].id == id);
    let (_, s1, _, _) = document_stage(before, id, format, content, expected_revision, batch)->Ok_0;
    assert(s1.providers == before.providers);
    assert(providers_for(s1, id) =~= providers_for(before, id));
}

fn stage_document(
    before: &AppState,
    id: &str,
    format: SubscriptionDocumentFormat,
    content: String,
    expected_revision: &str,
    parsed: &mut ParseResult,
) -> (r: Result<(usize, AppState, String, bool), DocumentOperationError>)
    ensures
        final(parsed).nodes.deep_view() == first_connections(old(parsed).nodes.deep_view()),
        final(parsed).skipped@ == old(parsed).skipped@,
        match document_stage(before@, id@, format, content@, expected_revision@, old(parsed).nodes.deep_view()) {
            Ok((i, s1, revision, changed)) => r matches Ok((k, next, rev, ch)) && k == i && next@ == s1 && rev@ == revision
                && ch == changed && i < before@.subscriptions.len() && s1.subscriptions.len() == before@.subscriptions.len()
                && first_index(subscription_keys(before@.subscriptions), id@) == Some(i),
            Err(e) => r matches Err(f) && f == e,
        },
{
    reveal(document_stage);
    let count = parsed.nodes.len();
    deduplicate_parsed_nodes(parsed);
    if validate_id(id).is_err() {
        return Err(DocumentOperationError::InvalidInput);
    }
    validate_document_revision(expected_revision)?;
    if parsed.nodes.len() != count {
        return Err(DocumentOperationError::NormalizationFailed);
    }
    let index = match find_subscription(before, id) {
        Some(i) => i,
        None => {
            return Err(DocumentOperationError::NotFound);
        },
    };
    let sub = &before.subscriptions[index];
    let existing = match &sub.document {
        Some(d) => d,
        None => {
            return Err(DocumentOperationError::DocumentUnavailable);
        },
    };
    let existing_revision = revision_for(existing.format, existing.content.as_str());
    if !crate::text::str_eq(existing_revision.as_str(), expected_revision) {
        return Err(DocumentOperationError::DocumentConflict);
    }
    let document_revision = revision_for(format, content.as_str());
    let changed = !crate::text::str_eq(document_revision.as_str(), expected_revision);
    let remote = match &sub.source {
        crate::domain::SubscriptionSource::Remote { .. } => true,
        crate::domain::SubscriptionSource::Manual => false,
    };
    let local_override = if changed && remote { true } else { existing.local_override };
    let mut updated = sub.exact_clone();
    updated.document = Some(SubscriptionDocument { format, content, local_override });
    updated.skipped_unsupported_nodes = 0;
    if changed && remote {
        if let Some(m) = &updated.http_metadata {
            let mut cleared = m.exact_clone();
            cleared.etag = None;
            cleared.last_modified = None;
            updated.http_metadata = Some(cleared);
        }
    }
    let ghost uv = updated@;
    let mut next = before.exact_clone();
    next.subscriptions.set(index, updated);
    proof {
        assert(next.subscriptions.deep_view() =~= before@.subscriptions.update(index as int, uv));
    }
    Ok((index, next, document_revision, changed))
}

fn finish_document(next: AppState, sub_id: &crate::domain::SubscriptionId, parsed: ParseResult, changed: bool) -> (r: Result<
    (AppState, bool),
    DocumentOperationError,
>)
    ensures
        match document_finish(next@, sub_id@, parsed.nodes.deep_view(), parsed.skipped@.len(), changed) {
            Ok((s3, requires_apply)) => r matches Ok((t, ra)) && t@ == s3 && ra == requires_apply
                && s3.subscriptions == next@.subscriptions,
            Err(e) => r matches Err(f) && f == e,
        },
{
    reveal(document_finish);
    let mut next = next;
    let providers = providers_of_subscription(&next, sub_id);
    if providers.len() != 1 {
        return Err(DocumentOperationError::ValidationFailed);
    }
    let provider_id = providers[0].id.exact_clone();
    let nodes_changed = match apply_provider_replacement(&mut next, provider_id, parsed) {
        Ok(c) => c,
        Err(e) => {
            return Err(map_document_replacement_error(e));
        },
    };
    let selected = match &next.active_subscription_id {
        Some(active) => active.same(sub_id),
        None => false,
    };
    let requires_apply = selected && (changed || nodes_changed);
    if requires_apply {
        if next.active_configuration_generation >= MAX_SAFE_INTEGER {
            return Err(DocumentOperationError::ValidationFailed);
        }
        next.active_configuration_generation = next.active_configuration_generation + 1;
    }
    match next.validate() {
        Ok(()) => Ok((next, requires_apply)),
        Err(_) => Err(DocumentOperationError::ValidationFailed),
    }
}

/// Prepares saving `content` (already in its exact stored form, with the
/// nodes parsed from it) as the document of subscription `id`, against the
/// state `before` read under the state lock.
pub fn prepare_document_save(
    before: &AppState,
    id: &str,
    format: SubscriptionDocumentFormat,
    content: String,
    expected_revision: &str,
    parsed: ParseResult,
) -> (r: Result<PreparedDocumentSave, DocumentOperationError>)
    ensures
        match document_save_result(before@, id@, format, content@, expected_revision@, parsed.nodes.deep_view(), parsed.skipped@.len()) {
            Ok((next, revision, requires_apply)) => r matches Ok(p) && p.next@ == next && p.document_revision@ == revision
                && p.requires_apply == requires_apply && p.state_changed == (next != before@)
                && p.summary.deep_view() == summary_of(next, next.subscriptions[first_index(subscription_keys(before@.subscriptions), id@)->0]),
            Err(e) => r matches Err(f) && f == e,
        },
{
    let mut parsed = parsed;
    let (index, staged, document_revision, changed) = stage_document(before, id, format, content, expected_revision, &mut parsed)?;
    let sub_id = before.subscriptions[index].id.exact_clone();
    let (next, requires_apply) = finish_document(staged, &sub_id, parsed, changed)?;
    let summary = summary_for(&next, index);
    let state_changed = !next.same(before);
    Ok(PreparedDocumentSave { next, document_revision, summary, requires_apply, state_changed })
}

/// Whether a prepared save may be committed over the state `current` read
/// again under the state lock: the state must still be the one the save was
/// prepared from, and only a changed state is written.
pub fn document_commit_step(current: &AppState, before: &AppState, prepared: &PreparedDocumentSave) -> (r: Result<
    bool,
    DocumentOperationError,
>)
    ensures
        current@ != before@ ==> r == Err::<bool, DocumentOperationError>(DocumentOperationError::DocumentConflict),
        current@ == before@ ==> r == Ok::<bool, DocumentOperationError>(prepared.state_changed),
{
    if !current.same(before) {
        return Err(DocumentOperationError::DocumentConflict);
    }
    Ok(prepared.state_changed)
}

/// A stored document as the editor reads it.
#[derive(Clone, Debug, PartialEq, Eq)]
pub struct SubscriptionDocumentReading {
    pub id: String,
    pub format: SubscriptionDocumentFormat,
    pub content: String,
    /// The revision a save of an edit of this document must name.
    pub revision: String,
    pub source_kind: SubscriptionSourceKind,
    pub local_override: bool,
}

/// What reading the document of subscription `id` in `state` answers: an
/// invalid id, an unknown subscription, one without a stored document, or
/// the document with its revision.
pub open spec fn document_reading(state: AppStateView, id: Seq<char>) -> Result<
    (SubscriptionDocumentView, Seq<char>, SubscriptionSourceKind),
    DocumentOperationError,
> {
    if !subscription_id_ok(id) {
        Err(DocumentOperationError::InvalidInput)
    } else {
        match first_index(subscription_keys(state.subscriptions), id) {
            None => Err(DocumentOperationError::NotFound),
            Some(i) => match state.subscriptions[i].document {
                None => Err(DocumentOperationError::DocumentUnavailable),
                Some(d) => Ok(
                    (
                        d,
                        document_revision_of(d.format, d.content),
                        if state.subscriptions[i].source is Remote {
                            SubscriptionSourceKind::Remote
                        } else {
                            SubscriptionSourceKind::Manual
                        },
                    ),
                ),
            },
        }
    }
}

/// Reads the document of subscription `id` in `state`.
pub fn read_document(state: &AppState, id: &str) -> (r: Result<SubscriptionDocumentReading, DocumentOperationError>)
    ensures
        match document_reading(state@, id@) {
            Ok((d, revision, kind)) => r matches Ok(v) && (v.id@ == id@ && v.format == d.format && v.content@ == d.content
                && v.revision@ == revision && v.source_kind == kind && v.local_override == d.local_override),
            Err(e) => r == Err::<SubscriptionDocumentReading, DocumentOperationError>(e),
        },
{
    if validate_id(id).is_err() {
        return Err(DocumentOperationError::InvalidInput);
    }
    let index = match find_subscription(state, id) {
        Some(i) => i,
        None => {
            return Err(DocumentOperationError::NotFound);
        },
    };
    let sub = &state.subscriptions[index];
    let document = match &sub.document {
        Some(d) => d,
        None => {
            return Err(DocumentOperationError::DocumentUnavailable);
        },
    };
    let source_kind = match &sub.source {
        crate::domain::SubscriptionSource::Remote { .. } => SubscriptionSourceKind::Remote,
        crate::domain::SubscriptionSource::Manual => SubscriptionSourceKind::Manual,
    };
    proof {
        crate::proxy_routing::lemma_first_index_some(subscription_keys(state@.subscriptions), id@);
    }
    Ok(SubscriptionDocumentReading {
        id: sub.id.0.exact_clone(),
        format: document.format,
        content: document.content.exact_clone(),
        revision: revision_for(document.format, document.content.as_str()),
        source_kind,
        local_override: document.local_override,
    })
}

/// What asking for the share URL of subscription `id` in `state` answers:
/// an invalid id, an unknown subscription, a manual one (nothing to
/// share), or the remote source's URL.
pub open spec fn share_url_of(state: AppStateView, id: Seq<char>) -> Result<Seq<char>, SubscriptionOperationError> {
    if !subscription_id_ok(id) {
        Err(SubscriptionOperationError::InvalidInput)
    } else {
        match first_index(subscription_keys(state.subscriptions), id) {
            None => Err(SubscriptionOperationError::NotFound),
            Some(i) => match state.subscriptions[i].source {
                SubscriptionSourceView::Remote { url } => Ok(url),
                SubscriptionSourceView::Manual => Err(SubscriptionOperationError::NotShareable),
            },
        }
    }
}

/// The editable settings of subscription `id` in `state`: an invalid id is
/// refused, an unknown one is not found.
pub fn subscription_settings(state: &AppState, id: &str) -> (r: Result<
    crate::subscription_management::SubscriptionSettings,
    SubscriptionOperationError,
>)
    ensures
        !subscription_id_ok(id@) ==> r == Err::<crate::subscription_management::SubscriptionSettings, SubscriptionOperationError>(
            SubscriptionOperationError::InvalidInput,
        ),
        subscription_id_ok(id@) ==> match first_index(subscription_keys(state@.subscriptions), id@) {
            None => r == Err::<crate::subscription_management::SubscriptionSettings, SubscriptionOperationError>(
                SubscriptionOperationError::NotFound,
            ),
            Some(i) => r matches Ok(settings) && settings.id@ == id@ && settings.name@
                == crate::subscription_management::display_name(state@.subscriptions[i].name)
                && settings.shareable == state@.subscriptions[i].source is Remote && settings.url_preview.deep_view()
                == match state@.subscriptions[i].source {
                SubscriptionSourceView::Remote { url } => crate::subscription_management::url_preview_of(url),
                SubscriptionSourceView::Manual => None,
            },
        },
{
    validate_id(id)?;
    match find_subscription(state, id) {
        Some(i) => {
            proof {
                crate::proxy_routing::lemma_first_index_some(subscription_keys(state@.subscriptions), id@);
            }
            Ok(crate::subscription_management::settings_for(&state.subscriptions[i]))
        },
        None => Err(SubscriptionOperationError::NotFound),
    }
}

/// The URL to share of subscription `id` in `state`.
pub fn share_url(state: &AppState, id: &str) -> (r: Result<String, SubscriptionOperationError>)
    ensures
        match share_url_of(state@, id@) {
            Ok(url) => r matches Ok(u) && u@ == url,
            Err(e) => r == Err::<String, SubscriptionOperationError>(e),
        },
{
    validate_id(id)?;
    let index = match find_subscription(state, id) {
        Some(i) => i,
        None => {
            return Err(SubscriptionOperationError::NotFound);
        },
    };
    match &state.subscriptions[index].source {
        crate::domain::SubscriptionSource::Remote { url } => Ok(url.exact_clone()),
        crate::domain::SubscriptionSource::Manual => Err(SubscriptionOperationError::NotShareable),
    }
}

} // verus!
