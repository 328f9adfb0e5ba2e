//! The proxy routing editor: validation of edits, their effect on the
//! application state, the revision that guards concurrent edits, and how the
//! runtime's progress is reported back.
use vstd::prelude::*;

use crate::domain::{
    AppState, AppStateView, ExactClone, ExactEq, NodeFilterView, NodeId, NodePool, NodePoolView,
    PoolId, PoolKind, PoolSourceView, ProxyProtocol, RoutePolicy, RoutePolicyId, RoutePolicyView,
    RouteTarget, RouteTargetView, SelectionPolicy, SelectionPolicyView, TrafficMatcherView,
    MAX_SAFE_INTEGER,
};
use crate::entropy::random_bytes16;
use crate::managed_runtime::{
    SelectorRuntimeNodes, ActivationError, RoutingApplyTerminal, RoutingApplyTerminalFailure, RoutingApplyTerminalView, ManualSelectionRuntimeResult, ManualSelectionRuntimeResultView,
    ManualSelectionSavedOnlyReason, ManualSelectionUnknownReason,
};
use crate::routing_dto::{
    default_target_from_dto, filter_from, matcher_from, matcher_from_dto, pool_sources_from_dto,
    route_target_from_dto, selection_from_dto, sources_from, DefaultTargetDto, MatcherDto,
    NodeFilterDto, PoolSourceDto, RouteTargetDto, SelectionDto,
};
use crate::text::{
    chars_of, contains_control, has_ctrl, hex_seq, push_char, push_hex, trim, trim_seq,
};
use crate::weburl::{parse_url, url_parse, UrlPartsView};
use crate::observability::{
    RuntimeObservationSnapshot, SubscriptionSwitchErrorCode, SubscriptionSwitchStatus,
    SubscriptionSwitchView,
};

verus! {

/// Most custom pools a state may hold.
pub const MAX_POOLS: usize = 100;

/// Most routes a state may hold.
pub const MAX_ROUTES: usize = 500;

/// Most sources of one pool.
pub const MAX_SOURCES: usize = 100;

/// Most texts of one free-text filter list.
pub const MAX_FILTER_TEXTS: usize = 64;

/// Most node ids of one filter list.
pub const MAX_FILTER_NODE_IDS: usize = 5000;

/// Most values of one matcher.
pub const MAX_MATCHER_VALUES: usize = 500;

/// Why an edit was refused.
#[derive(Clone, Copy, Debug, PartialEq, Eq, Structural)]
pub enum MutationError {
    InvalidInput,
    Busy,
    Conflict,
    NotFound,
    ReferenceConflict,
    ValidationFailed,
    SaveFailed,
    StateUnavailable,
    RuntimeUnavailable,
    ConfigurationFailed,
    StateChanged,
    StopFailed,
    StartFailed,
    RecoveryRequired,
}

/// Why a read of the editor's view failed.
#[derive(Clone, Copy, Debug, PartialEq, Eq, Structural)]
pub enum QueryError {
    Busy,
    StateUnavailable,
    RuntimeUnavailable,
}

// ---------------------------------------------------------------------------
// Validation of edited values
// ---------------------------------------------------------------------------

/// A display name: non-empty after trimming, at most 80 characters, no
/// control character.
pub open spec fn name_ok(v: Seq<char>) -> bool {
    let t = trim_seq(v);
    t.len() > 0 && t.len() <= 80 && !has_ctrl(t)
}

/// A reference to an existing item: non-empty, no surrounding whitespace, no
/// control character.
pub open spec fn reference_ok(v: Seq<char>) -> bool {
    v.len() > 0 && trim_seq(v) == v && !has_ctrl(v)
}

/// A valid free text of a list: non-empty after trimming, at most 255
/// characters, no control character.
pub open spec fn text_ok(v: Seq<char>) -> bool {
    let t = trim_seq(v);
    t.len() > 0 && t.len() <= 255 && !has_ctrl(t)
}

/// No two texts of the list are equal once trimmed.
pub open spec fn trimmed_distinct(vs: Seq<Seq<char>>) -> bool {
    forall|i: int, j: int| 0 <= i < j < vs.len() ==> trim_seq(vs[i]) != trim_seq(vs[j])
}

/// No two values of the list are equal.
pub open spec fn all_distinct<T>(vs: Seq<T>) -> bool {
    forall|i: int, j: int| 0 <= i < j < vs.len() ==> vs[i] != vs[j]
}

/// A list of free texts: at most `max`, each valid, distinct once trimmed.
#[verifier::opaque]
pub open spec fn texts_ok(vs: Seq<Seq<char>>, max: int) -> bool {
    &&& vs.len() <= max
    &&& forall|i: int| 0 <= i < vs.len() ==> text_ok(#[trigger] vs[i])
    &&& trimmed_distinct(vs)
}

/// A list of references: at most `max`, distinct, each valid.
#[verifier::opaque]
pub open spec fn references_ok(vs: Seq<Seq<char>>, max: int) -> bool {
    &&& vs.len() <= max
    &&& all_distinct(vs)
    &&& forall|i: int| 0 <= i < vs.len() ==> reference_ok(#[trigger] vs[i])
}

/// An edited node filter.
#[verifier::opaque]
pub open spec fn filter_ok(f: NodeFilterView) -> bool {
    &&& texts_ok(f.regions, MAX_FILTER_TEXTS as int)
    &&& texts_ok(f.include_keywords, MAX_FILTER_TEXTS as int)
    &&& texts_ok(f.exclude_keywords, MAX_FILTER_TEXTS as int)
    &&& references_ok(f.include_node_ids, MAX_FILTER_NODE_IDS as int)
    &&& references_ok(f.exclude_node_ids, MAX_FILTER_NODE_IDS as int)
    &&& f.protocols.len() <= 15
    &&& all_distinct(f.protocols)
    &&& forall|i: int|
        0 <= i < f.include_node_ids.len() ==> !f.exclude_node_ids.contains(
            #[trigger] f.include_node_ids[i],
        )
}

/// The sources of an edited pool: one to 100, distinct providers, each valid.
#[verifier::opaque]
pub open spec fn sources_ok(ss: Seq<PoolSourceView>) -> bool {
    &&& ss.len() > 0
    &&& ss.len() <= MAX_SOURCES
    &&& all_distinct(Seq::new(ss.len(), |i: int| ss[i].provider_id))
    &&& forall|i: int|
        0 <= i < ss.len() ==> reference_ok((#[trigger] ss[i]).provider_id) && filter_ok(
            ss[i].filter,
        )
}

/// A probe URL: any `https` URL, or an `http` URL on the loopback address
/// without credentials, query or fragment.
pub open spec fn probe_url_ok(parsed: Option<UrlPartsView>) -> bool {
    match parsed {
        None => false,
        Some(u) => u.scheme == "https"@ || (u.scheme == "http"@ && u.username.len() == 0
            && u.password is None && u.query is None && u.fragment is None && (u.host == Some(
            "127.0.0.1"@,
        ) || u.host == Some("::1"@))),
    }
}

/// An edited selection policy.
#[verifier::opaque]
pub open spec fn selection_ok(s: SelectionPolicyView) -> bool {
    match s {
        SelectionPolicyView::Manual { selected_node_id } => match selected_node_id {
            Some(id) => reference_ok(id),
            None => true,
        },
        SelectionPolicyView::UrlTest { probe_url, interval_secs, tolerance_ms } => {
            &&& 1 <= interval_secs <= 86400
            &&& tolerance_ms <= 60000
            &&& vstd::utf8::encode_utf8(probe_url).len() <= 2048
            &&& probe_url_ok(url_parse(probe_url))
        },
    }
}

/// An edited target: a pool target names a valid reference.
pub open spec fn target_ok(t: RouteTargetView) -> bool {
    match t {
        RouteTargetView::Pool(id) => reference_ok(id),
        _ => true,
    }
}

/// An edited matcher: one to 500 values, distinct; texts valid, ports non-zero.
#[verifier::opaque]
pub open spec fn matcher_ok(m: TrafficMatcherView) -> bool {
    match m {
        TrafficMatcherView::Domain(x) => x.len() > 0 && texts_ok(x, MAX_MATCHER_VALUES as int),
        TrafficMatcherView::DomainSuffix(x) => x.len() > 0 && texts_ok(x, MAX_MATCHER_VALUES as int),
        TrafficMatcherView::Application(x) => x.len() > 0 && texts_ok(x, MAX_MATCHER_VALUES as int),
        TrafficMatcherView::IpCidr(x) => x.len() > 0 && texts_ok(x, MAX_MATCHER_VALUES as int),
        TrafficMatcherView::Port(x) => x.len() > 0 && x.len() <= MAX_MATCHER_VALUES && !x.contains(
            0u16,
        ) && all_distinct(x),
        TrafficMatcherView::Protocol(x) => x.len() > 0 && x.len() <= MAX_MATCHER_VALUES
            && all_distinct(x),
    }
}

fn check(ok: bool) -> (r: Result<(), MutationError>)
    ensures
        ok ==> r is Ok,
        !ok ==> r == Err::<(), MutationError>(MutationError::InvalidInput),
{
    if ok {
        Ok(())
    } else {
        Err(MutationError::InvalidInput)
    }
}

/// Checks a display name.
pub fn validate_name(value: &str) -> (r: Result<(), MutationError>)
    ensures
        r is Ok <==> name_ok(value@),
        r is Err ==> r == Err::<(), MutationError>(MutationError::InvalidInput),
{
    let t = chars_of(trim(value).as_str());
    check(t.len() > 0 && t.len() <= 80 && !contains_control(&t))
}

/// Checks a reference to an existing item.
pub fn validate_reference(value: &str) -> (r: Result<(), MutationError>)
    ensures
        r is Ok <==> reference_ok(value@),
        r is Err ==> r == Err::<(), MutationError>(MutationError::InvalidInput),
{
    let v = chars_of(value);
    let t = trim(value);
    check(v.len() > 0 && crate::text::str_eq(t.as_str(), value) && !contains_control(&v))
}

fn text_valid(value: &str) -> (r: bool)
    ensures
        r == text_ok(value@),
{
    let t = chars_of(trim(value).as_str());
    t.len() > 0 && t.len() <= 255 && !contains_control(&t)
}

fn strings_distinct(vs: &Vec<String>) -> (r: bool)
    ensures
        r == all_distinct(vs.deep_view()),
{
    let ghost v = vs.deep_view();
    let mut j: usize = 0;
    while j < vs.len()
        invariant
            j <= vs.len(),
            v == vs.deep_view(),
            forall|a: int, b: int| 0 <= a < b < j ==> v[a] != v[b],
        decreases vs.len() - j,
    {
        let mut i: usize = 0;
        while i < j
            invariant
                i <= j < vs.len(),
                v == vs.deep_view(),
                forall|a: int, b: int| 0 <= a < b < j ==> v[a] != v[b],
                forall|a: int| 0 <= a < i ==> v[a] != v[j as int],
            decreases j - i,
        {
            if vs[i].same(&vs[j]) {
                proof {
                    assert(v[i as int] == v[j as int]);
                }
                return false;
            }
            i = i + 1;
        }
        j = j + 1;
    }
    true
}

fn slice_strings(values: &[String]) -> (r: Vec<String>)
    ensures
        r.deep_view() == values@.map_values(|s: String| s@),
{
    let mut r: Vec<String> = Vec::new();
    let mut i: usize = 0;
    while i < values.len()
        invariant
            i <= values.len(),
            r.len() == i,
            forall|k: int| 0 <= k < i ==> #[trigger] r.deep_view()[k] == values@[k]@,
        decreases values.len() - i,
    {
        let item = values[i].exact_clone();
        let ghost before = r.deep_view();
        r.push(item);
        proof {
            assert(r.deep_view() =~= before.push(item.deep_view()));
        }
        i = i + 1;
    }
    proof {
        assert(r.deep_view() =~= values@.map_values(|s: String| s@));
    }
    r
}

/// Checks a list of free texts against `max` entries.
#[verifier::loop_isolation(false)]
pub fn validate_texts(values: &[String], max: usize) -> (r: Result<(), MutationError>)
    ensures
        r is Ok <==> texts_ok(values@.map_values(|s: String| s@), max as int),
        r is Err ==> r == Err::<(), MutationError>(MutationError::InvalidInput),
{
    proof {
        reveal(texts_ok);
    }
    let vs = slice_strings(values);
    let ghost v = vs.deep_view();
    if vs.len() > max {
        return Err(MutationError::InvalidInput);
    }
    let mut trimmed: Vec<String> = Vec::new();
    let mut i: usize = 0;
    while i < vs.len()
        invariant
            i <= vs.len(),
            v == vs.deep_view(),
            trimmed.len() == i,
            forall|k: int| 0 <= k < i ==> text_ok(#[trigger] v[k]),
            forall|k: int| 0 <= k < i ==> #[trigger] trimmed.deep_view()[k] == trim_seq(v[k]),
        decreases vs.len() - i,
    {
        if !text_valid(vs[i].as_str()) {
            proof {
                assert(v[i as int] == vs[i as int]@);
                assert(!text_ok(v[i as int]));
            }
            return Err(MutationError::InvalidInput);
        }
        let item = trim(vs[i].as_str());
        let ghost before = trimmed.deep_view();
        trimmed.push(item);
        proof {
            assert(trimmed.deep_view() =~= before.push(item.deep_view()));
        }
        i = i + 1;
    }
    let distinct = strings_distinct(&trimmed);
    proof {
        if distinct {
            assert(trimmed_distinct(v)) by {
                assert forall|a: int, b: int| 0 <= a < b < v.len() implies trim_seq(v[a])
                    != trim_seq(v[b]) by {
                    assert(trimmed.deep_view()[a] == trim_seq(v[a]));
                    assert(trimmed.deep_view()[b] == trim_seq(v[b]));
                }
            }
        } else {
            let (a, b) = choose|a: int, b: int|
                0 <= a < b < trimmed.deep_view().len() && trimmed.deep_view()[a]
                    == trimmed.deep_view()[b];
            assert(trimmed.deep_view()[a] == trim_seq(v[a]));
            assert(trimmed.deep_view()[b] == trim_seq(v[b]));
        }
    }
    check(distinct)
}

fn validate_text_vec(values: &Vec<String>, max: usize) -> (r: Result<(), MutationError>)
    ensures
        r is Ok <==> texts_ok(values.deep_view(), max as int),
        r is Err ==> r == Err::<(), MutationError>(MutationError::InvalidInput),
{
    proof {
        assert(values@.map_values(|s: String| s@) =~= values.deep_view());
    }
    validate_texts(values.as_slice(), max)
}

/// Checks a list of references against `max` entries.
#[verifier::loop_isolation(false)]
pub fn validate_references(values: &[String], max: usize) -> (r: Result<(), MutationError>)
    ensures
        r is Ok <==> references_ok(values@.map_values(|s: String| s@), max as int),
        r is Err ==> r == Err::<(), MutationError>(MutationError::InvalidInput),
{
    proof {
        reveal(references_ok);
    }
    let vs = slice_strings(values);
    let ghost v = vs.deep_view();
    if vs.len() > max || !strings_distinct(&vs) {
        return Err(MutationError::InvalidInput);
    }
    let mut i: usize = 0;
    while i < vs.len()
        invariant
            i <= vs.len(),
            v == vs.deep_view(),
            forall|k: int| 0 <= k < i ==> reference_ok(#[trigger] v[k]),
        decreases vs.len() - i,
    {
        if validate_reference(vs[i].as_str()).is_err() {
            proof {
                assert(v[i as int] == vs[i as int]@);
                assert(!reference_ok(v[i as int]));
            }
            return Err(MutationError::InvalidInput);
        }
        i = i + 1;
    }
    Ok(())
}

fn validate_reference_vec(values: &Vec<String>, max: usize) -> (r: Result<(), MutationError>)
    ensures
        r is Ok <==> references_ok(values.deep_view(), max as int),
        r is Err ==> r == Err::<(), MutationError>(MutationError::InvalidInput),
{
    proof {
        assert(values@.map_values(|s: String| s@) =~= values.deep_view());
    }
    validate_references(values.as_slice(), max)
}

fn protocols_distinct(vs: &Vec<crate::routing_dto::ProxyProtocolDto>) -> (r: bool)
    ensures
        r == all_distinct(vs.deep_view()),
{
    let ghost v = vs.deep_view();
    let mut j: usize = 0;
    while j < vs.len()
        invariant
            j <= vs.len(),
            v == vs.deep_view(),
            forall|a: int, b: int| 0 <= a < b < j ==> v[a] != v[b],
        decreases vs.len() - j,
    {
        let mut i: usize = 0;
        while i < j
            invariant
                i <= j < vs.len(),
                v == vs.deep_view(),
                forall|a: int, b: int| 0 <= a < b < j ==> v[a] != v[b],
                forall|a: int| 0 <= a < i ==> v[a] != v[j as int],
            decreases j - i,
        {
            if crate::routing_dto::protocol_from_dto(vs[i]) == crate::routing_dto::protocol_from_dto(
                vs[j],
            ) {
                proof {
                    assert(v[i as int] == v[j as int]);
                }
                return false;
            }
            i = i + 1;
        }
        j = j + 1;
    }
    true
}

fn string_in(vs: &Vec<String>, x: &String) -> (r: bool)
    ensures
        r == vs.deep_view().contains(x@),
{
    let mut i: usize = 0;
    while i < vs.len()
        invariant
            i <= vs.len(),
            forall|k: int| 0 <= k < i ==> vs.deep_view()[k] != x@,
        decreases vs.len() - i,
    {
        if vs[i].same(x) {
            proof {
                assert(vs.deep_view()[i as int] == x@);
            }
            return true;
        }
        i = i + 1;
    }
    false
}

/// Checks an edited node filter.
#[verifier::loop_isolation(false)]
pub fn validate_filter(v: &NodeFilterDto) -> (r: Result<(), MutationError>)
    ensures
        r is Ok <==> filter_ok(v.deep_view()),
        r is Err ==> r == Err::<(), MutationError>(MutationError::InvalidInput),
{
    proof {
        reveal(filter_ok);
    }
    validate_text_vec(&v.regions, MAX_FILTER_TEXTS)?;
    validate_text_vec(&v.include_keywords, MAX_FILTER_TEXTS)?;
    validate_text_vec(&v.exclude_keywords, MAX_FILTER_TEXTS)?;
    validate_reference_vec(&v.include_node_ids, MAX_FILTER_NODE_IDS)?;
    validate_reference_vec(&v.exclude_node_ids, MAX_FILTER_NODE_IDS)?;
    if v.protocols.len() > 15 || !protocols_distinct(&v.protocols) {
        return Err(MutationError::InvalidInput);
    }
    let mut i: usize = 0;
    while i < v.include_node_ids.len()
        invariant
            i <= v.include_node_ids.len(),
            forall|k: int|
                0 <= k < i ==> !v.exclude_node_ids.deep_view().contains(
                    #[trigger] v.include_node_ids.deep_view()[k],
                ),
        decreases v.include_node_ids.len() - i,
    {
        if string_in(&v.exclude_node_ids, &v.include_node_ids[i]) {
            proof {
                assert(v.include_node_ids.deep_view()[i as int] == v.include_node_ids[i as int]@);
                assert(v.exclude_node_ids.deep_view().contains(
                    v.include_node_ids.deep_view()[i as int],
                ));
            }
            return Err(MutationError::InvalidInput);
        }
        i = i + 1;
    }
    Ok(())
}

/// Checks the sources of an edited pool.
#[verifier::loop_isolation(false)]
pub fn validate_sources(values: &[PoolSourceDto]) -> (r: Result<(), MutationError>)
    ensures
        r is Ok <==> sources_ok(values@.map_values(|s: PoolSourceDto| s.deep_view())),
        r is Err ==> r == Err::<(), MutationError>(MutationError::InvalidInput),
{
    proof {
        reveal(sources_ok);
    }
    let ghost ss = values@.map_values(|s: PoolSourceDto| s.deep_view());
    if values.len() == 0 || values.len() > MAX_SOURCES {
        return Err(MutationError::InvalidInput);
    }
    let mut providers: Vec<String> = Vec::new();
    let mut i: usize = 0;
    while i < values.len()
        invariant
            i <= values.len(),
            ss == values@.map_values(|s: PoolSourceDto| s.deep_view()),
            providers.len() == i,
            forall|k: int| 0 <= k < i ==> #[trigger] providers.deep_view()[k] == ss[k].provider_id,
        decreases values.len() - i,
    {
        let item = values[i].provider_id.exact_clone();
        let ghost before = providers.deep_view();
        providers.push(item);
        proof {
            assert(providers.deep_view() =~= before.push(item.deep_view()));
        }
        i = i + 1;
    }
    proof {
        assert(providers.deep_view() =~= Seq::new(ss.len(), |i: int| ss[i].provider_id));
    }
    if !strings_distinct(&providers) {
        return Err(MutationError::InvalidInput);
    }
    proof {
        assert(all_distinct(Seq::new(ss.len(), |i: int| ss[i].provider_id)));
    }
    let mut i: usize = 0;
    while i < values.len()
        invariant
            i <= values.len(),
            ss == values@.map_values(|s: PoolSourceDto| s.deep_view()),
            forall|k: int|
                0 <= k < i ==> reference_ok((#[trigger] ss[k]).provider_id) && filter_ok(
                    ss[k].filter,
                ),
        decreases values.len() - i,
    {
        proof {
            assert(ss[i as int] == values@[i as int].deep_view());
        }
        if validate_reference(values[i].provider_id.as_str()).is_err() {
            return Err(MutationError::InvalidInput);
        }
        if validate_filter(&values[i].filter).is_err() {
            return Err(MutationError::InvalidInput);
        }
        i = i + 1;
    }
    Ok(())
}

fn validate_source_vec(values: &Vec<PoolSourceDto>) -> (r: Result<(), MutationError>)
    ensures
        r is Ok <==> sources_ok(values.deep_view()),
        r is Err ==> r == Err::<(), MutationError>(MutationError::InvalidInput),
{
    proof {
        assert(values@.map_values(|s: PoolSourceDto| s.deep_view()) =~= values.deep_view());
    }
    validate_sources(values.as_slice())
}

/// Whether a probe URL may be used by a url-test pool.
pub fn valid_probe_url(value: &str) -> (r: bool)
    ensures
        r == probe_url_ok(url_parse(value@)),
{
    let parts = match parse_url(value) {
        Some(parts) => parts,
        None => return false,
    };
    if crate::text::str_eq(parts.scheme.as_str(), "https") {
        return true;
    }
    let loopback = match &parts.host {
        Some(host) => crate::text::str_eq(host.as_str(), "127.0.0.1") || crate::text::str_eq(
            host.as_str(),
            "::1",
        ),
        None => false,
    };
    crate::text::str_eq(parts.scheme.as_str(), "http") && parts.username.as_str().unicode_len()
        == 0 && parts.password.is_none() && parts.query.is_none() && parts.fragment.is_none()
        && loopback
}

/// Checks an edited selection policy.
pub fn validate_selection(v: &SelectionDto) -> (r: Result<(), MutationError>)
    ensures
        r is Ok <==> selection_ok(v.deep_view()),
        r is Err ==> r == Err::<(), MutationError>(MutationError::InvalidInput),
{
    proof {
        reveal(selection_ok);
    }
    match v {
        SelectionDto::Manual { selected_node_id } => {
            if let Some(id) = selected_node_id {
                validate_reference(id.as_str())?;
            }
            Ok(())
        },
        SelectionDto::UrlTest { probe_url, interval_seconds, tolerance_ms } => {
            let ok = 1 <= *interval_seconds && *interval_seconds <= 86400 && *tolerance_ms <= 60000
                && probe_url.as_str().as_bytes().len() <= 2048 && valid_probe_url(
                probe_url.as_str(),
            );
            check(ok)
        },
    }
}

/// Checks an edited default target.
pub fn validate_default_target(v: &DefaultTargetDto) -> (r: Result<(), MutationError>)
    ensures
        r is Ok <==> target_ok(v.deep_view()),
        r is Err ==> r == Err::<(), MutationError>(MutationError::InvalidInput),
{
    match v {
        DefaultTargetDto::Pool { pool_id } => validate_reference(pool_id.as_str()),
        _ => Ok(()),
    }
}

/// Checks an edited route target.
pub fn validate_route_target(v: &RouteTargetDto) -> (r: Result<(), MutationError>)
    ensures
        r is Ok <==> target_ok(v.deep_view()),
        r is Err ==> r == Err::<(), MutationError>(MutationError::InvalidInput),
{
    match v {
        RouteTargetDto::Pool { pool_id } => validate_reference(pool_id.as_str()),
        _ => Ok(()),
    }
}

fn validate_matcher_texts(x: &Vec<String>) -> (r: Result<(), MutationError>)
    ensures
        r is Ok <==> x.len() > 0 && texts_ok(x.deep_view(), MAX_MATCHER_VALUES as int),
        r is Err ==> r == Err::<(), MutationError>(MutationError::InvalidInput),
{
    if x.len() == 0 || x.len() > MAX_MATCHER_VALUES {
        proof {
            reveal(texts_ok);
        }
        Err(MutationError::InvalidInput)
    } else {
        validate_text_vec(x, MAX_MATCHER_VALUES)
    }
}

/// Checks an edited matcher.
#[verifier::loop_isolation(false)]
pub fn validate_matcher(v: &MatcherDto) -> (r: Result<(), MutationError>)
    ensures
        r is Ok <==> matcher_ok(v.deep_view()),
        r is Err ==> r == Err::<(), MutationError>(MutationError::InvalidInput),
{
    proof {
        reveal(matcher_ok);
    }
    match v {
        MatcherDto::Domain(x) => validate_matcher_texts(x),
        MatcherDto::DomainSuffix(x) => validate_matcher_texts(x),
        MatcherDto::Application(x) => validate_matcher_texts(x),
        MatcherDto::IpCidr(x) => validate_matcher_texts(x),
        MatcherDto::Port(x) => {
            if x.len() == 0 || x.len() > MAX_MATCHER_VALUES {
                return Err(MutationError::InvalidInput);
            }
            let ghost vals = x.deep_view();
            proof {
                assert(x@ =~= vals);
            }
            let mut j: usize = 0;
            while j < x.len()
                invariant
                    j <= x.len(),
                    vals == x@,
                    forall|a: int| 0 <= a < j ==> vals[a] != 0u16,
                    forall|a: int, b: int| 0 <= a < b < j ==> vals[a] != vals[b],
                decreases x.len() - j,
            {
                if x[j] == 0 {
                    proof {
                        assert(vals[j as int] == 0u16);
                        assert(vals.contains(0u16));
                    }
                    return Err(MutationError::InvalidInput);
                }
                let mut i: usize = 0;
                while i < j
                    invariant
                        i <= j < x.len(),
                        vals == x@,
                        forall|a: int| 0 <= a < i ==> vals[a] != vals[j as int],
                    decreases j - i,
                {
                    if x[i] == x[j] {
                        proof {
                            assert(vals[i as int] == vals[j as int]);
                        }
                        return Err(MutationError::InvalidInput);
                    }
                    i = i + 1;
                }
                j = j + 1;
            }
            Ok(())
        },
        MatcherDto::Protocol(x) => {
            if x.len() == 0 || x.len() > MAX_MATCHER_VALUES {
                return Err(MutationError::InvalidInput);
            }
            let ghost vals = x.deep_view();
            let mut j: usize = 0;
            while j < x.len()
                invariant
                    j <= x.len(),
                    vals == x.deep_view(),
                    forall|a: int, b: int| 0 <= a < b < j ==> vals[a] != vals[b],
                decreases x.len() - j,
            {
                let mut i: usize = 0;
                while i < j
                    invariant
                        i <= j < x.len(),
                        vals == x.deep_view(),
                        forall|a: int| 0 <= a < i ==> vals[a] != vals[j as int],
                    decreases j - i,
                {
                    if x[i] == x[j] {
                        proof {
                            assert(vals[i as int] == vals[j as int]);
                        }
                        return Err(MutationError::InvalidInput);
                    }
                    i = i + 1;
                }
                j = j + 1;
            }
            Ok(())
        },
    }
}


// ---------------------------------------------------------------------------
// Edits and their effect
// ---------------------------------------------------------------------------

/// One edit of the routing configuration.
#[derive(Clone, Debug, PartialEq, Eq)]
pub enum ProxyRoutingMutation {
    CreateCustomPool {
        name: String,
        enabled: bool,
        sources: Vec<PoolSourceDto>,
        selection: SelectionDto,
    },
    UpdateCustomPool {
        id: String,
        name: String,
        enabled: bool,
        sources: Vec<PoolSourceDto>,
        selection: SelectionDto,
    },
    DeleteCustomPool { id: String },
    SetManualSelection { pool_id: String, node_id: String },
    SetDefaultTarget { target: DefaultTargetDto },
    CreateRoute {
        name: String,
        enabled: bool,
        matcher: MatcherDto,
        target: RouteTargetDto,
        insert_at: usize,
    },
    UpdateRoute {
        id: String,
        name: String,
        enabled: bool,
        matcher: MatcherDto,
        target: RouteTargetDto,
    },
    DeleteRoute { id: String },
    ReorderRoutes { route_ids: Vec<String> },
    ApplyConfiguration,
}

/// Mathematical view of [`ProxyRoutingMutation`].
pub ghost enum ProxyRoutingMutationView {
    CreateCustomPool {
        name: Seq<char>,
        enabled: bool,
        sources: Seq<PoolSourceView>,
        selection: SelectionPolicyView,
    },
    UpdateCustomPool {
        id: Seq<char>,
        name: Seq<char>,
        enabled: bool,
        sources: Seq<PoolSourceView>,
        selection: SelectionPolicyView,
    },
    DeleteCustomPool { id: Seq<char> },
    SetManualSelection { pool_id: Seq<char>, node_id: Seq<char> },
    SetDefaultTarget { target: RouteTargetView },
    CreateRoute {
        name: Seq<char>,
        enabled: bool,
        matcher: TrafficMatcherView,
        target: RouteTargetView,
        insert_at: usize,
    },
    UpdateRoute {
        id: Seq<char>,
        name: Seq<char>,
        enabled: bool,
        matcher: TrafficMatcherView,
        target: RouteTargetView,
    },
    DeleteRoute { id: Seq<char> },
    ReorderRoutes { route_ids: Seq<Seq<char>> },
    ApplyConfiguration,
}

impl DeepView for ProxyRoutingMutation {
    type V = ProxyRoutingMutationView;

    open spec fn deep_view(&self) -> ProxyRoutingMutationView {
        match self {
            ProxyRoutingMutation::CreateCustomPool { name, enabled, sources, selection } => {
                ProxyRoutingMutationView::CreateCustomPool {
                    name: name@,
                    enabled: *enabled,
                    sources: sources.deep_view(),
                    selection: selection.deep_view(),
                }
            },
            ProxyRoutingMutation::UpdateCustomPool { id, name, enabled, sources, selection } => {
                ProxyRoutingMutationView::UpdateCustomPool {
                    id: id@,
                    name: name@,
                    enabled: *enabled,
                    sources: sources.deep_view(),
                    selection: selection.deep_view(),
                }
            },
            ProxyRoutingMutation::DeleteCustomPool { id } => {
                ProxyRoutingMutationView::DeleteCustomPool { id: id@ }
            },
            ProxyRoutingMutation::SetManualSelection { pool_id, node_id } => {
                ProxyRoutingMutationView::SetManualSelection { pool_id: pool_id@, node_id: node_id@ }
            },
            ProxyRoutingMutation::SetDefaultTarget { target } => {
                ProxyRoutingMutationView::SetDefaultTarget { target: target.deep_view() }
            },
            ProxyRoutingMutation::CreateRoute { name, enabled, matcher, target, insert_at } => {
                ProxyRoutingMutationView::CreateRoute {
                    name: name@,
                    enabled: *enabled,
                    matcher: matcher.deep_view(),
                    target: target.deep_view(),
                    insert_at: *insert_at,
                }
            },
            ProxyRoutingMutation::UpdateRoute { id, name, enabled, matcher, target } => {
                ProxyRoutingMutationView::UpdateRoute {
                    id: id@,
                    name: name@,
                    enabled: *enabled,
                    matcher: matcher.deep_view(),
                    target: target.deep_view(),
                }
            },
            ProxyRoutingMutation::DeleteRoute { id } => ProxyRoutingMutationView::DeleteRoute {
                id: id@,
            },
            ProxyRoutingMutation::ReorderRoutes { route_ids } => {
                ProxyRoutingMutationView::ReorderRoutes { route_ids: route_ids.deep_view() }
            },
            ProxyRoutingMutation::ApplyConfiguration => ProxyRoutingMutationView::ApplyConfiguration,
        }
    }
}

/// A routing edit together with the revision it was made against.
#[derive(Clone, Debug, PartialEq, Eq)]
pub struct MutateProxyRoutingRequest {
    pub expected_revision: u64,
    pub mutation: ProxyRoutingMutation,
}

/// Why a saved selector choice was not handed to the running core.
#[derive(Clone, Copy, Debug, PartialEq, Eq, Structural)]
pub enum SelectorSavedOnlyReason {
    RuntimeStopped,
    RuntimeNotReady,
    NotInAppliedArtifact,
    DispatchUnavailable,
}

/// Why the runtime outcome of a selector choice is unknown.
#[derive(Clone, Copy, Debug, PartialEq, Eq, Structural)]
pub enum SelectorApplyUnknownReason {
    ReadBackUnavailable,
    UnknownRuntimeNode,
    InstanceChanged,
    Superseded,
}

/// What a successful edit achieved.
#[derive(Clone, Debug, PartialEq, Eq)]
pub enum MutationOutcome {
    Saved,
    SelectorApplied { pool_id: String, node_id: String },
    SelectorNotApplied { pool_id: String, node_id: String, runtime_node_id: String },
    SelectorSavedOnly { pool_id: String, node_id: String, reason: SelectorSavedOnlyReason },
    SelectorApplyUnknown {
        pool_id: String,
        node_id: String,
        reason: SelectorApplyUnknownReason,
    },
    ApplyStarted { operation_id: String },
    ApplyCompleted { operation_id: String },
}

/// Mathematical view of [`MutationOutcome`].
pub ghost enum MutationOutcomeView {
    Saved,
    SelectorApplied { pool_id: Seq<char>, node_id: Seq<char> },
    SelectorNotApplied { pool_id: Seq<char>, node_id: Seq<char>, runtime_node_id: Seq<char> },
    SelectorSavedOnly { pool_id: Seq<char>, node_id: Seq<char>, reason: SelectorSavedOnlyReason },
    SelectorApplyUnknown {
        pool_id: Seq<char>,
        node_id: Seq<char>,
        reason: SelectorApplyUnknownReason,
    },
    ApplyStarted { operation_id: Seq<char> },
    ApplyCompleted { operation_id: Seq<char> },
}

impl DeepView for MutationOutcome {
    type V = MutationOutcomeView;

    open spec fn deep_view(&self) -> MutationOutcomeView {
        match self {
            MutationOutcome::Saved => MutationOutcomeView::Saved,
            MutationOutcome::SelectorApplied { pool_id, node_id } => {
                MutationOutcomeView::SelectorApplied { pool_id: pool_id@, node_id: node_id@ }
            },
            MutationOutcome::SelectorNotApplied { pool_id, node_id, runtime_node_id } => {
                MutationOutcomeView::SelectorNotApplied {
                    pool_id: pool_id@,
                    node_id: node_id@,
                    runtime_node_id: runtime_node_id@,
                }
            },
            MutationOutcome::SelectorSavedOnly { pool_id, node_id, reason } => {
                MutationOutcomeView::SelectorSavedOnly {
                    pool_id: pool_id@,
                    node_id: node_id@,
                    reason: *reason,
                }
            },
            MutationOutcome::SelectorApplyUnknown { pool_id, node_id, reason } => {
                MutationOutcomeView::SelectorApplyUnknown {
                    pool_id: pool_id@,
                    node_id: node_id@,
                    reason: *reason,
                }
            },
            MutationOutcome::ApplyStarted { operation_id } => MutationOutcomeView::ApplyStarted {
                operation_id: operation_id@,
            },
            MutationOutcome::ApplyCompleted { operation_id } => {
                MutationOutcomeView::ApplyCompleted { operation_id: operation_id@ }
            },
        }
    }
}

/// Ids of the pools, in order.
pub open spec fn pool_keys(pools: Seq<NodePoolView>) -> Seq<Seq<char>> {
    pools.map_values(|x: NodePoolView| x.id)
}

/// Ids of the routes, in order.
pub open spec fn route_keys(routes: Seq<RoutePolicyView>) -> Seq<Seq<char>> {
    routes.map_values(|x: RoutePolicyView| x.id)
}

/// Position of the first occurrence of `key`.
pub open spec fn first_index(keys: Seq<Seq<char>>, key: Seq<char>) -> Option<int> {
    if keys.contains(key) {
        Some(
            choose|i: int|
                0 <= i < keys.len() && keys[i] == key && forall|j: int|
                    0 <= j < i ==> keys[j] != key,
        )
    } else {
        None
    }
}

/// An index holding the key with no earlier occurrence is the first index.
pub proof fn lemma_first_index(keys: Seq<Seq<char>>, key: Seq<char>, i: int)
    requires
        0 <= i < keys.len(),
        keys[i] == key,
        forall|j: int| 0 <= j < i ==> keys[j] != key,
    ensures
        first_index(keys, key) == Some(i),
{
    assert(keys.contains(key));
    let c = choose|c: int|
        0 <= c < keys.len() && keys[c] == key && forall|j: int| 0 <= j < c ==> keys[j] != key;
    assert(0 <= c < keys.len() && keys[c] == key && forall|j: int| 0 <= j < c ==> keys[j] != key);
    if c < i {
        assert(keys[c] != key);
    } else if c > i {
        assert(keys[i] != key);
    }
}

/// A key that occurs at `c` or earlier has a first position.
proof fn lemma_first_from(keys: Seq<Seq<char>>, key: Seq<char>, c: int)
    requires
        0 <= c < keys.len(),
        keys[c] == key,
    ensures
        first_index(keys, key) matches Some(i) && 0 <= i < keys.len() && keys[i] == key,
    decreases c,
{
    if exists|j: int| 0 <= j < c && keys[j] == key {
        let j = choose|j: int| 0 <= j < c && keys[j] == key;
        lemma_first_from(keys, key, j);
    } else {
        lemma_first_index(keys, key, c);
    }
}

/// A key that occurs has a first position.
pub proof fn lemma_first_index_some(keys: Seq<Seq<char>>, key: Seq<char>)
    requires
        keys.contains(key),
    ensures
        first_index(keys, key) matches Some(i) && 0 <= i < keys.len() && keys[i] == key,
{
    let c = choose|c: int| 0 <= c < keys.len() && keys[c] == key;
    lemma_first_from(keys, key, c);
}

/// The id a freshly created item gets: prefix, hyphen, 32 hexadecimal digits.
pub open spec fn fresh_id(prefix: Seq<char>, bytes: Seq<u8>) -> Seq<char> {
    prefix + seq!['-'] + hex_seq(bytes)
}

/// Routes with priorities renumbered by position.
pub open spec fn prioritized(rs: Seq<RoutePolicyView>) -> Seq<RoutePolicyView> {
    Seq::new(rs.len(), |i: int| RoutePolicyView { priority: i as i32, ..rs[i] })
}

/// Renumbering by position fits in `i32`.
pub open spec fn priorities_fit(len: nat) -> bool {
    len <= 0x8000_0000
}

/// `s` with other pools.
pub open spec fn with_pools(s: AppStateView, pools: Seq<NodePoolView>) -> AppStateView {
    AppStateView { pools, ..s }
}

/// `s` with other routes.
pub open spec fn with_routes(s: AppStateView, routes: Seq<RoutePolicyView>) -> AppStateView {
    AppStateView { routes, ..s }
}

/// Some route of `s` targets pool `id`, or the default target does.
pub open spec fn pool_referenced(s: AppStateView, id: Seq<char>) -> bool {
    s.default_target == RouteTargetView::Pool(id) || exists|k: int|
        0 <= k < s.routes.len() && (#[trigger] s.routes[k]).target == RouteTargetView::Pool(id)
}

/// Every id of the list names a route of `routes`.
pub open spec fn all_known(ids: Seq<Seq<char>>, routes: Seq<RoutePolicyView>) -> bool {
    forall|k: int| 0 <= k < ids.len() ==> route_keys(routes).contains(#[trigger] ids[k])
}

/// The routes named by `ids`, in that order (each the first route with its id).
pub open spec fn reordered(ids: Seq<Seq<char>>, routes: Seq<RoutePolicyView>) -> Seq<
    RoutePolicyView,
> {
    Seq::new(ids.len(), |k: int| routes[first_index(route_keys(routes), ids[k])->0])
}

/// What `CreateCustomPool` makes of `s`.
#[verifier::opaque]
pub open spec fn create_custom_pool_result(s: AppStateView, name: Seq<char>, enabled: bool, sources: Seq<PoolSourceView>, selection: SelectionPolicyView, fresh: Option<Seq<u8>>) -> Result<(AppStateView, MutationOutcomeView), MutationError> {
    if s.pools.len() >= MAX_POOLS {
        Err(MutationError::ValidationFailed)
    } else if !name_ok(name) || !sources_ok(sources) || !selection_ok(selection) {
        Err(MutationError::InvalidInput)
    } else {
        match fresh {
            None => Err(MutationError::StateUnavailable),
            Some(b) => {
                let id = fresh_id("pool"@, b);
                if pool_keys(s.pools).contains(id) {
                    Err(MutationError::StateUnavailable)
                } else {
                    Ok(
                        (
                            with_pools(
                                s,
                                s.pools.push(
                                    NodePoolView {
                                        id,
                                        name: trim_seq(name),
                                        kind: PoolKind::Custom,
                                        sources: sources_from(sources),
                                        selection,
                                        enabled,
                                    },
                                ),
                            ),
                            MutationOutcomeView::Saved,
                        ),
                    )
                }
            },
        }
    }
}

/// What `UpdateCustomPool` makes of `s`.
#[verifier::opaque]
pub open spec fn update_custom_pool_result(s: AppStateView, id: Seq<char>, name: Seq<char>, enabled: bool, sources: Seq<PoolSourceView>, selection: SelectionPolicyView) -> Result<(AppStateView, MutationOutcomeView), MutationError> {
    if !reference_ok(id) || !name_ok(name) || !sources_ok(sources) || !selection_ok(
        selection,
    ) {
        Err(MutationError::InvalidInput)
    } else {
        match first_index(pool_keys(s.pools), id) {
            None => Err(MutationError::NotFound),
            Some(i) => if s.pools[i].kind != PoolKind::Custom {
                Err(MutationError::ReferenceConflict)
            } else {
                Ok(
                    (
                        with_pools(
                            s,
                            s.pools.update(
                                i,
                                NodePoolView {
                                    name: trim_seq(name),
                                    enabled,
                                    sources: sources_from(sources),
                                    selection,
                                    ..s.pools[i]
                                },
                            ),
                        ),
                        MutationOutcomeView::Saved,
                    ),
                )
            },
        }
    }
}

/// What `DeleteCustomPool` makes of `s`.
#[verifier::opaque]
pub open spec fn delete_custom_pool_result(s: AppStateView, id: Seq<char>) -> Result<(AppStateView, MutationOutcomeView), MutationError> {
    if !reference_ok(id) {
        Err(MutationError::InvalidInput)
    } else {
        match first_index(pool_keys(s.pools), id) {
            None => Err(MutationError::NotFound),
            Some(i) => if s.pools[i].kind != PoolKind::Custom || pool_referenced(s, id) {
                Err(MutationError::ReferenceConflict)
            } else {
                Ok((with_pools(s, s.pools.remove(i)), MutationOutcomeView::Saved))
            },
        }
    }
}

/// What `SetManualSelection` makes of `s`.
#[verifier::opaque]
pub open spec fn set_manual_selection_result(s: AppStateView, pool_id: Seq<char>, node_id: Seq<char>) -> Result<(AppStateView, MutationOutcomeView), MutationError> {
    if !reference_ok(pool_id) || !reference_ok(node_id) {
        Err(MutationError::InvalidInput)
    } else {
        match first_index(pool_keys(s.pools), pool_id) {
            None => Err(MutationError::NotFound),
            Some(i) => if !(s.pools[i].selection is Manual) {
                Err(MutationError::ReferenceConflict)
            } else {
                Ok(
                    (
                        with_pools(
                            s,
                            s.pools.update(
                                i,
                                NodePoolView {
                                    selection: SelectionPolicyView::Manual {
                                        selected_node_id: Some(node_id),
                                    },
                                    ..s.pools[i]
                                },
                            ),
                        ),
                        MutationOutcomeView::SelectorSavedOnly {
                            pool_id,
                            node_id,
                            reason: SelectorSavedOnlyReason::RuntimeNotReady,
                        },
                    ),
                )
            },
        }
    }
}

/// What `SetDefaultTarget` makes of `s`.
#[verifier::opaque]
pub open spec fn set_default_target_result(s: AppStateView, target: RouteTargetView) -> Result<(AppStateView, MutationOutcomeView), MutationError> {
    if !target_ok(target) {
        Err(MutationError::InvalidInput)
    } else {
        Ok((AppStateView { default_target: target, ..s }, MutationOutcomeView::Saved))
    }
}

/// What `CreateRoute` makes of `s`.
#[verifier::opaque]
pub open spec fn create_route_result(s: AppStateView, name: Seq<char>, enabled: bool, matcher: TrafficMatcherView, target: RouteTargetView, insert_at: usize, fresh: Option<Seq<u8>>) -> Result<(AppStateView, MutationOutcomeView), MutationError> {
    if s.routes.len() >= MAX_ROUTES || insert_at > s.routes.len() {
        Err(MutationError::ValidationFailed)
    } else if !name_ok(name) || !matcher_ok(matcher) || !target_ok(target) {
        Err(MutationError::InvalidInput)
    } else {
        match fresh {
            None => Err(MutationError::StateUnavailable),
            Some(b) => {
                let id = fresh_id("route"@, b);
                if route_keys(s.routes).contains(id) {
                    Err(MutationError::StateUnavailable)
                } else {
                    let route = RoutePolicyView {
                        id,
                        name: trim_seq(name),
                        enabled,
                        priority: 0,
                        matcher: matcher_from(matcher),
                        target,
                    };
                    Ok(
                        (
                            with_routes(
                                s,
                                prioritized(s.routes.insert(insert_at as int, route)),
                            ),
                            MutationOutcomeView::Saved,
                        ),
                    )
                }
            },
        }
    }
}

/// What `UpdateRoute` makes of `s`.
#[verifier::opaque]
pub open spec fn update_route_result(s: AppStateView, id: Seq<char>, name: Seq<char>, enabled: bool, matcher: TrafficMatcherView, target: RouteTargetView) -> Result<(AppStateView, MutationOutcomeView), MutationError> {
    if !reference_ok(id) || !name_ok(name) || !matcher_ok(matcher) || !target_ok(target) {
        Err(MutationError::InvalidInput)
    } else {
        match first_index(route_keys(s.routes), id) {
            None => Err(MutationError::NotFound),
            Some(i) => Ok(
                (
                    with_routes(
                        s,
                        s.routes.update(
                            i,
                            RoutePolicyView {
                                name: trim_seq(name),
                                enabled,
                                matcher: matcher_from(matcher),
                                target,
                                ..s.routes[i]
                            },
                        ),
                    ),
                    MutationOutcomeView::Saved,
                ),
            ),
        }
    }
}

/// What `DeleteRoute` makes of `s`.
#[verifier::opaque]
pub open spec fn delete_route_result(s: AppStateView, id: Seq<char>) -> Result<(AppStateView, MutationOutcomeView), MutationError> {
    if !reference_ok(id) {
        Err(MutationError::InvalidInput)
    } else {
        match first_index(route_keys(s.routes), id) {
            None => Err(MutationError::NotFound),
            Some(i) => if !priorities_fit((s.routes.len() - 1) as nat) {
                Err(MutationError::ValidationFailed)
            } else {
                Ok(
                    (
                        with_routes(s, prioritized(s.routes.remove(i))),
                        MutationOutcomeView::Saved,
                    ),
                )
            },
        }
    }
}

/// What `ReorderRoutes` makes of `s`.
#[verifier::opaque]
pub open spec fn reorder_routes_result(s: AppStateView, route_ids: Seq<Seq<char>>) -> Result<(AppStateView, MutationOutcomeView), MutationError> {
    if route_ids.len() != s.routes.len() || !all_distinct(route_ids) || !all_known(
        route_ids,
        s.routes,
    ) || !priorities_fit(route_ids.len()) {
        Err(MutationError::ValidationFailed)
    } else {
        Ok(
            (
                with_routes(s, prioritized(reordered(route_ids, s.routes))),
                MutationOutcomeView::Saved,
            ),
        )
    }
}

/// The state and outcome an edit produces from `s`, or the error that refuses
/// it. `fresh` is the randomness drawn for a new id (`None`: none could be
/// drawn).
pub open spec fn mutation_result(
    s: AppStateView,
    m: ProxyRoutingMutationView,
    fresh: Option<Seq<u8>>,
) -> Result<(AppStateView, MutationOutcomeView), MutationError> {
    match m {
        ProxyRoutingMutationView::CreateCustomPool { name, enabled, sources, selection } => create_custom_pool_result(s, name, enabled, sources, selection, fresh),
        ProxyRoutingMutationView::UpdateCustomPool { id, name, enabled, sources, selection } => update_custom_pool_result(s, id, name, enabled, sources, selection),
        ProxyRoutingMutationView::DeleteCustomPool { id } => delete_custom_pool_result(s, id),
        ProxyRoutingMutationView::SetManualSelection { pool_id, node_id } => set_manual_selection_result(s, pool_id, node_id),
        ProxyRoutingMutationView::SetDefaultTarget { target } => set_default_target_result(s, target),
        ProxyRoutingMutationView::CreateRoute { name, enabled, matcher, target, insert_at } => create_route_result(s, name, enabled, matcher, target, insert_at, fresh),
        ProxyRoutingMutationView::UpdateRoute { id, name, enabled, matcher, target } => update_route_result(s, id, name, enabled, matcher, target),
        ProxyRoutingMutationView::DeleteRoute { id } => delete_route_result(s, id),
        ProxyRoutingMutationView::ReorderRoutes { route_ids } => reorder_routes_result(s, route_ids),
        ProxyRoutingMutationView::ApplyConfiguration => Err(MutationError::InvalidInput),
    }
}

/// `after` and `r` are what the outcome `res` of an edit of `before` says.
pub open spec fn settles_to(
    before: AppStateView,
    after: AppStateView,
    r: Result<MutationOutcomeView, MutationError>,
    res: Result<(AppStateView, MutationOutcomeView), MutationError>,
) -> bool {
    match res {
        Ok((next, outcome)) => r == Ok::<MutationOutcomeView, MutationError>(outcome) && after
            == next,
        Err(e) => r == Err::<MutationOutcomeView, MutationError>(e) && after == before,
    }
}

/// `after` and `r` are what `m` makes of `before` with randomness `fresh`.
pub open spec fn settles(
    before: AppStateView,
    after: AppStateView,
    r: Result<MutationOutcomeView, MutationError>,
    m: ProxyRoutingMutationView,
    fresh: Option<Seq<u8>>,
) -> bool {
    match mutation_result(before, m, fresh) {
        Ok((next, outcome)) => r == Ok::<MutationOutcomeView, MutationError>(outcome) && after
            == next,
        Err(e) => r == Err::<MutationOutcomeView, MutationError>(e) && after == before,
    }
}


/// The view of an edit's result.
pub open spec fn result_view(r: Result<MutationOutcome, MutationError>) -> Result<
    MutationOutcomeView,
    MutationError,
> {
    match r {
        Ok(o) => Ok(o.deep_view()),
        Err(e) => Err(e),
    }
}

fn find_pool_index(pools: &Vec<NodePool>, id: &str) -> (r: Option<usize>)
    ensures
        match r {
            Some(i) => i < pools.len() && first_index(pool_keys(pools.deep_view()), id@) == Some(
                i as int,
            ),
            None => first_index(pool_keys(pools.deep_view()), id@) is None,
        },
{
    let ghost keys = pool_keys(pools.deep_view());
    let mut i: usize = 0;
    while i < pools.len()
        invariant
            i <= pools.len(),
            keys == pool_keys(pools.deep_view()),
            forall|k: int| 0 <= k < i ==> keys[k] != id@,
        decreases pools.len() - i,
    {
        if crate::text::str_eq(pools[i].id.0.as_str(), id) {
            proof {
                assert(keys[i as int] == id@);
                lemma_first_index(keys, id@, i as int);
            }
            return Some(i);
        }
        i = i + 1;
    }
    proof {
        assert(!keys.contains(id@));
    }
    None
}

fn find_route_index(routes: &Vec<RoutePolicy>, id: &str) -> (r: Option<usize>)
    ensures
        match r {
            Some(i) => i < routes.len() && first_index(route_keys(routes.deep_view()), id@) == Some(
                i as int,
            ),
            None => first_index(route_keys(routes.deep_view()), id@) is None,
        },
{
    let ghost keys = route_keys(routes.deep_view());
    let mut i: usize = 0;
    while i < routes.len()
        invariant
            i <= routes.len(),
            keys == route_keys(routes.deep_view()),
            forall|k: int| 0 <= k < i ==> keys[k] != id@,
        decreases routes.len() - i,
    {
        if crate::text::str_eq(routes[i].id.0.as_str(), id) {
            proof {
                assert(keys[i as int] == id@);
                lemma_first_index(keys, id@, i as int);
            }
            return Some(i);
        }
        i = i + 1;
    }
    proof {
        assert(!keys.contains(id@));
    }
    None
}

/// `prefix-<hex of bytes>`: the id of a newly created item.
pub fn new_id_text(prefix: &str, bytes: &Vec<u8>) -> (r: String)
    ensures
        r@ == fresh_id(prefix@, bytes@),
{
    let mut id = String::from_str(prefix);
    push_char(&mut id, '-');
    push_hex(&mut id, bytes);
    id
}

/// Renumbers the routes' priorities by position.
pub fn normalize_priorities(routes: &mut Vec<RoutePolicy>)
    requires
        priorities_fit(old(routes)@.len()),
    ensures
        final(routes).deep_view() == prioritized(old(routes).deep_view()),
{
    let ghost start = routes.deep_view();
    let mut i: usize = 0;
    while i < routes.len()
        invariant
            i <= routes.len(),
            routes.len() == start.len(),
            priorities_fit(start.len()),
            forall|k: int| 0 <= k < i ==> #[trigger] routes.deep_view()[k] == prioritized(start)[k],
            forall|k: int| i <= k < routes.len() ==> #[trigger] routes.deep_view()[k] == start[k],
        decreases routes.len() - i,
    {
        let mut route = routes[i].exact_clone();
        route.priority = i as i32;
        let ghost before = routes.deep_view();
        routes.set(i, route);
        proof {
            assert(routes.deep_view() =~= before.update(i as int, route.deep_view()));
            assert(before[i as int] == start[i as int]);
            assert(route.deep_view() == prioritized(start)[i as int]);
        }
        i = i + 1;
    }
    proof {
        assert(routes.deep_view() =~= prioritized(start));
    }
}

fn pool_referenced_exec(state: &AppState, id: &str) -> (r: bool)
    ensures
        r == pool_referenced(state@, id@),
{
    if let RouteTarget::Pool(p) = &state.default_target {
        if crate::text::str_eq(p.0.as_str(), id) {
            return true;
        }
    }
    let mut k: usize = 0;
    while k < state.routes.len()
        invariant
            k <= state.routes.len(),
            state@.default_target != RouteTargetView::Pool(id@),
            forall|j: int| 0 <= j < k ==> state@.routes[j].target != RouteTargetView::Pool(id@),
        decreases state.routes.len() - k,
    {
        if let RouteTarget::Pool(p) = &state.routes[k].target {
            if crate::text::str_eq(p.0.as_str(), id) {
                proof {
                    assert(state@.routes[k as int].target == RouteTargetView::Pool(id@));
                }
                return true;
            }
        }
        k = k + 1;
    }
    false
}

#[verifier::rlimit(40)]
fn create_custom_pool(state: &mut AppState, name: &String, enabled: &bool, sources: &Vec<PoolSourceDto>, selection: &SelectionDto, fresh: &Option<Vec<u8>>) -> (r: Result<MutationOutcome, MutationError>)
    ensures
        settles_to(old(state)@, final(state)@, result_view(r), create_custom_pool_result(old(state)@, name@, *enabled, sources.deep_view(), selection.deep_view(), fresh.deep_view())),
{
    proof {
        reveal(create_custom_pool_result);
    }
    if state.pools.len() >= MAX_POOLS {
        return Err(MutationError::ValidationFailed);
    }
    if validate_name(name.as_str()).is_err() || validate_source_vec(sources).is_err()
        || validate_selection(selection).is_err() {
        return Err(MutationError::InvalidInput);
    }
    let bytes = match fresh {
        Some(b) => b,
        None => {
            return Err(MutationError::StateUnavailable);
        },
    };
    let id = new_id_text("pool", bytes);
    proof {
        assert(bytes.deep_view() =~= bytes@);
    }
    if find_pool_index(&state.pools, id.as_str()).is_some() {
        return Err(MutationError::StateUnavailable);
    }
    let pool = NodePool {
        id: PoolId(id),
        name: trim(name.as_str()),
        kind: PoolKind::Custom,
        sources: pool_sources_from_dto(sources),
        selection: selection_from_dto(selection),
        enabled: *enabled,
    };
    let ghost before = state.pools.deep_view();
    state.pools.push(pool);
    proof {
        assert(state.pools.deep_view() =~= before.push(pool.deep_view()));
    }
    Ok(MutationOutcome::Saved)
}
#[verifier::rlimit(40)]
fn update_custom_pool(state: &mut AppState, id: &String, name: &String, enabled: &bool, sources: &Vec<PoolSourceDto>, selection: &SelectionDto) -> (r: Result<MutationOutcome, MutationError>)
    ensures
        settles_to(old(state)@, final(state)@, result_view(r), update_custom_pool_result(old(state)@, id@, name@, *enabled, sources.deep_view(), selection.deep_view())),
{
    proof {
        reveal(update_custom_pool_result);
    }
    if validate_reference(id.as_str()).is_err() || validate_name(name.as_str()).is_err()
        || validate_source_vec(sources).is_err() || validate_selection(selection).is_err() {
        return Err(MutationError::InvalidInput);
    }
    let i = match find_pool_index(&state.pools, id.as_str()) {
        Some(i) => i,
        None => {
            return Err(MutationError::NotFound);
        },
    };
    if state.pools[i].kind != PoolKind::Custom {
        return Err(MutationError::ReferenceConflict);
    }
    let pool = NodePool {
        id: state.pools[i].id.exact_clone(),
        name: trim(name.as_str()),
        kind: state.pools[i].kind,
        sources: pool_sources_from_dto(sources),
        selection: selection_from_dto(selection),
        enabled: *enabled,
    };
    let ghost before = state.pools.deep_view();
    state.pools.set(i, pool);
    proof {
        assert(state.pools.deep_view() =~= before.update(i as int, pool.deep_view()));
    }
    Ok(MutationOutcome::Saved)
}
#[verifier::rlimit(40)]
fn delete_custom_pool(state: &mut AppState, id: &String) -> (r: Result<MutationOutcome, MutationError>)
    ensures
        settles_to(old(state)@, final(state)@, result_view(r), delete_custom_pool_result(old(state)@, id@)),
{
    proof {
        reveal(delete_custom_pool_result);
    }
    if validate_reference(id.as_str()).is_err() {
        return Err(MutationError::InvalidInput);
    }
    let i = match find_pool_index(&state.pools, id.as_str()) {
        Some(i) => i,
        None => {
            return Err(MutationError::NotFound);
        },
    };
    if state.pools[i].kind != PoolKind::Custom || pool_referenced_exec(state, id.as_str()) {
        return Err(MutationError::ReferenceConflict);
    }
    let ghost before = state.pools.deep_view();
    state.pools.remove(i);
    proof {
        assert(state.pools.deep_view() =~= before.remove(i as int));
    }
    Ok(MutationOutcome::Saved)
}
#[verifier::rlimit(40)]
fn set_manual_selection(state: &mut AppState, pool_id: &String, node_id: &String) -> (r: Result<MutationOutcome, MutationError>)
    ensures
        settles_to(old(state)@, final(state)@, result_view(r), set_manual_selection_result(old(state)@, pool_id@, node_id@)),
{
    proof {
        reveal(set_manual_selection_result);
    }
    if validate_reference(pool_id.as_str()).is_err() || validate_reference(
        node_id.as_str(),
    ).is_err() {
        return Err(MutationError::InvalidInput);
    }
    let i = match find_pool_index(&state.pools, pool_id.as_str()) {
        Some(i) => i,
        None => {
            return Err(MutationError::NotFound);
        },
    };
    match &state.pools[i].selection {
        SelectionPolicy::Manual { .. } => {},
        _ => {
            return Err(MutationError::ReferenceConflict);
        },
    }
    let mut pool = state.pools[i].exact_clone();
    pool.selection = SelectionPolicy::Manual {
        selected_node_id: Some(NodeId(node_id.exact_clone())),
    };
    let ghost before = state.pools.deep_view();
    state.pools.set(i, pool);
    proof {
        assert(state.pools.deep_view() =~= before.update(i as int, pool.deep_view()));
    }
    Ok(
        MutationOutcome::SelectorSavedOnly {
            pool_id: pool_id.exact_clone(),
            node_id: node_id.exact_clone(),
            reason: SelectorSavedOnlyReason::RuntimeNotReady,
        },
    )
}
fn set_default_target(state: &mut AppState, target: &DefaultTargetDto) -> (r: Result<MutationOutcome, MutationError>)
    ensures
        settles_to(old(state)@, final(state)@, result_view(r), set_default_target_result(old(state)@, target.deep_view())),
{
    proof {
        reveal(set_default_target_result);
    }
    if validate_default_target(target).is_err() {
        return Err(MutationError::InvalidInput);
    }
    state.default_target = default_target_from_dto(target);
    Ok(MutationOutcome::Saved)
}
#[verifier::rlimit(40)]
fn create_route(state: &mut AppState, name: &String, enabled: &bool, matcher: &MatcherDto, target: &RouteTargetDto, insert_at: &usize, fresh: &Option<Vec<u8>>) -> (r: Result<MutationOutcome, MutationError>)
    ensures
        settles_to(old(state)@, final(state)@, result_view(r), create_route_result(old(state)@, name@, *enabled, matcher.deep_view(), target.deep_view(), *insert_at, fresh.deep_view())),
{
    proof {
        reveal(create_route_result);
    }
    if state.routes.len() >= MAX_ROUTES || *insert_at > state.routes.len() {
        return Err(MutationError::ValidationFailed);
    }
    if validate_name(name.as_str()).is_err() || validate_matcher(matcher).is_err()
        || validate_route_target(target).is_err() {
        return Err(MutationError::InvalidInput);
    }
    let bytes = match fresh {
        Some(b) => b,
        None => {
            return Err(MutationError::StateUnavailable);
        },
    };
    let id = new_id_text("route", bytes);
    proof {
        assert(bytes.deep_view() =~= bytes@);
    }
    if find_route_index(&state.routes, id.as_str()).is_some() {
        return Err(MutationError::StateUnavailable);
    }
    let route = RoutePolicy {
        id: RoutePolicyId(id),
        name: trim(name.as_str()),
        enabled: *enabled,
        priority: 0,
        matcher: matcher_from_dto(matcher),
        target: route_target_from_dto(target),
    };
    let ghost before = state.routes.deep_view();
    state.routes.insert(*insert_at, route);
    proof {
        assert(state.routes.deep_view() =~= before.insert(
            *insert_at as int,
            route.deep_view(),
        ));
    }
    normalize_priorities(&mut state.routes);
    Ok(MutationOutcome::Saved)
}
#[verifier::rlimit(40)]
fn update_route(state: &mut AppState, id: &String, name: &String, enabled: &bool, matcher: &MatcherDto, target: &RouteTargetDto) -> (r: Result<MutationOutcome, MutationError>)
    ensures
        settles_to(old(state)@, final(state)@, result_view(r), update_route_result(old(state)@, id@, name@, *enabled, matcher.deep_view(), target.deep_view())),
{
    proof {
        reveal(update_route_result);
    }
    if validate_reference(id.as_str()).is_err() || validate_name(name.as_str()).is_err()
        || validate_matcher(matcher).is_err() || validate_route_target(target).is_err() {
        return Err(MutationError::InvalidInput);
    }
    let i = match find_route_index(&state.routes, id.as_str()) {
        Some(i) => i,
        None => {
            return Err(MutationError::NotFound);
        },
    };
    let route = RoutePolicy {
        id: state.routes[i].id.exact_clone(),
        name: trim(name.as_str()),
        enabled: *enabled,
        priority: state.routes[i].priority,
        matcher: matcher_from_dto(matcher),
        target: route_target_from_dto(target),
    };
    let ghost before = state.routes.deep_view();
    state.routes.set(i, route);
    proof {
        assert(state.routes.deep_view() =~= before.update(i as int, route.deep_view()));
    }
    Ok(MutationOutcome::Saved)
}
#[verifier::rlimit(40)]
fn delete_route(state: &mut AppState, id: &String) -> (r: Result<MutationOutcome, MutationError>)
    ensures
        settles_to(old(state)@, final(state)@, result_view(r), delete_route_result(old(state)@, id@)),
{
    proof {
        reveal(delete_route_result);
    }
    if validate_reference(id.as_str()).is_err() {
        return Err(MutationError::InvalidInput);
    }
    let i = match find_route_index(&state.routes, id.as_str()) {
        Some(i) => i,
        None => {
            return Err(MutationError::NotFound);
        },
    };
    if state.routes.len() - 1 > 0x8000_0000 {
        return Err(MutationError::ValidationFailed);
    }
    let ghost before = state.routes.deep_view();
    state.routes.remove(i);
    proof {
        assert(state.routes.deep_view() =~= before.remove(i as int));
    }
    normalize_priorities(&mut state.routes);
    Ok(MutationOutcome::Saved)
}
#[verifier::loop_isolation(false)]
#[verifier::rlimit(80)]
#[verifier::spinoff_prover]
fn reorder_routes(state: &mut AppState, route_ids: &Vec<String>) -> (r: Result<MutationOutcome, MutationError>)
    ensures
        settles_to(old(state)@, final(state)@, result_view(r), reorder_routes_result(old(state)@, route_ids.deep_view())),
{
    proof {
        reveal(reorder_routes_result);
    }
    if route_ids.len() != state.routes.len() || !strings_distinct(route_ids)
        || route_ids.len() > 0x8000_0000 {
        return Err(MutationError::ValidationFailed);
    }
    let ghost keys = route_keys(state.routes.deep_view());
    let mut ordered: Vec<RoutePolicy> = Vec::new();
    let mut k: usize = 0;
    while k < route_ids.len()
        invariant
            k <= route_ids.len(),
            keys == route_keys(state.routes.deep_view()),
            ordered.len() == k,
            forall|j: int|
                0 <= j < k ==> keys.contains(#[trigger] route_ids.deep_view()[j]),
            forall|j: int|
                0 <= j < k ==> #[trigger] ordered.deep_view()[j] == state.routes.deep_view()[first_index(
                    keys,
                    route_ids.deep_view()[j],
                )->0],
        decreases route_ids.len() - k,
    {
        let idx = match find_route_index(&state.routes, route_ids[k].as_str()) {
            Some(idx) => idx,
            None => {
                proof {
                    assert(route_ids.deep_view()[k as int] == route_ids[k as int]@);
                    assert(!keys.contains(route_ids.deep_view()[k as int]));
                    assert(!all_known(route_ids.deep_view(), state.routes.deep_view()));
                }
                return Err(MutationError::ValidationFailed);
            },
        };
        proof {
            assert(route_ids.deep_view()[k as int] == route_ids[k as int]@);
        }
        let item = state.routes[idx].exact_clone();
        let ghost before = ordered.deep_view();
        ordered.push(item);
        proof {
            assert(ordered.deep_view() =~= before.push(item.deep_view()));
        }
        k = k + 1;
    }
    proof {
        assert(ordered.deep_view() =~= reordered(
            route_ids.deep_view(),
            state.routes.deep_view(),
        ));
    }
    normalize_priorities(&mut ordered);
    state.routes = ordered;
    Ok(MutationOutcome::Saved)
}

/// Applies an edit to `state` with the randomness `fresh` for new ids. On an
/// error `state` is left as it was.
pub fn apply_mutation_with(
    state: &mut AppState,
    mutation: &ProxyRoutingMutation,
    fresh: &Option<Vec<u8>>,
) -> (r: Result<MutationOutcome, MutationError>)
    requires
        !(mutation is ApplyConfiguration),
    ensures
        settles(
            old(state)@,
            final(state)@,
            result_view(r),
            mutation.deep_view(),
            fresh.deep_view(),
        ),
{
    match mutation {
        ProxyRoutingMutation::CreateCustomPool { name, enabled, sources, selection } => create_custom_pool(state, name, enabled, sources, selection, fresh),
        ProxyRoutingMutation::UpdateCustomPool { id, name, enabled, sources, selection } => update_custom_pool(state, id, name, enabled, sources, selection),
        ProxyRoutingMutation::DeleteCustomPool { id } => delete_custom_pool(state, id),
        ProxyRoutingMutation::SetManualSelection { pool_id, node_id } => set_manual_selection(state, pool_id, node_id),
        ProxyRoutingMutation::SetDefaultTarget { target } => set_default_target(state, target),
        ProxyRoutingMutation::CreateRoute { name, enabled, matcher, target, insert_at } => create_route(state, name, enabled, matcher, target, insert_at, fresh),
        ProxyRoutingMutation::UpdateRoute { id, name, enabled, matcher, target } => update_route(state, id, name, enabled, matcher, target),
        ProxyRoutingMutation::DeleteRoute { id } => delete_route(state, id),
        ProxyRoutingMutation::ReorderRoutes { route_ids } => reorder_routes(state, route_ids),
        ProxyRoutingMutation::ApplyConfiguration => Err(MutationError::InvalidInput),
    }
}

/// Applies an edit to `state`, drawing randomness for a new id where the
/// edit creates an item. On an error `state` is left as it was.
pub fn apply_mutation(state: &mut AppState, mutation: ProxyRoutingMutation) -> (r: Result<
    MutationOutcome,
    MutationError,
>)
    requires
        !(mutation is ApplyConfiguration),
    ensures
        exists|fresh: Option<Seq<u8>>|
            (fresh matches Some(b) ==> b.len() == 16) && settles(
                old(state)@,
                final(state)@,
                result_view(r),
                mutation.deep_view(),
                fresh,
            ),
{
    let fresh = match &mutation {
        ProxyRoutingMutation::CreateCustomPool { .. } | ProxyRoutingMutation::CreateRoute {
            ..
        } => random_bytes16(),
        _ => None,
    };
    let r = apply_mutation_with(state, &mutation, &fresh);
    proof {
        let w = fresh.deep_view();
        assert(w matches Some(b) ==> b.len() == 16);
    }
    r
}


// ---------------------------------------------------------------------------
// Revision of the edited configuration
// ---------------------------------------------------------------------------

/// A provider as far as the editor's revision is concerned.
#[derive(Clone, Debug, PartialEq, Eq)]
pub struct CasProvider {
    pub id: String,
    pub subscription_id: String,
    pub name: String,
}

/// A node as far as the editor's revision is concerned.
#[derive(Clone, Debug, PartialEq, Eq)]
pub struct CasNode {
    pub id: String,
    pub provider_id: String,
    pub name: String,
    pub protocol: ProxyProtocol,
}

/// Everything of the state that the editor shows; a change of any of it
/// makes a new revision.
#[derive(Clone, Debug, PartialEq, Eq)]
pub struct CasMaterial {
    pub active_subscription_id: Option<String>,
    pub desired_generation: u64,
    pub providers: Vec<CasProvider>,
    pub nodes: Vec<CasNode>,
    pub pools: Vec<NodePool>,
    pub default_target: RouteTarget,
    pub routes: Vec<RoutePolicy>,
}

/// Mathematical view of [`CasMaterial`].
pub ghost struct CasMaterialView {
    pub active_subscription_id: Option<Seq<char>>,
    pub desired_generation: u64,
    pub providers: Seq<(Seq<char>, Seq<char>, Seq<char>)>,
    pub nodes: Seq<(Seq<char>, Seq<char>, Seq<char>, ProxyProtocol)>,
    pub pools: Seq<NodePoolView>,
    pub default_target: RouteTargetView,
    pub routes: Seq<RoutePolicyView>,
}

impl DeepView for CasProvider {
    type V = (Seq<char>, Seq<char>, Seq<char>);

    open spec fn deep_view(&self) -> (Seq<char>, Seq<char>, Seq<char>) {
        (self.id@, self.subscription_id@, self.name@)
    }
}

impl DeepView for CasNode {
    type V = (Seq<char>, Seq<char>, Seq<char>, ProxyProtocol);

    open spec fn deep_view(&self) -> (Seq<char>, Seq<char>, Seq<char>, ProxyProtocol) {
        (self.id@, self.provider_id@, self.name@, self.protocol)
    }
}

impl DeepView for CasMaterial {
    type V = CasMaterialView;

    open spec fn deep_view(&self) -> CasMaterialView {
        CasMaterialView {
            active_subscription_id: self.active_subscription_id.deep_view(),
            desired_generation: self.desired_generation,
            providers: self.providers.deep_view(),
            nodes: self.nodes.deep_view(),
            pools: self.pools.deep_view(),
            default_target: self.default_target.deep_view(),
            routes: self.routes.deep_view(),
        }
    }
}

impl View for CasMaterial {
    type V = CasMaterialView;

    open spec fn view(&self) -> CasMaterialView {
        self.deep_view()
    }
}

impl ExactEq for CasProvider {
    fn same(&self, other: &Self) -> (r: bool) {
        self.id.same(&other.id) && self.subscription_id.same(&other.subscription_id)
            && self.name.same(&other.name)
    }
}

impl ExactEq for CasNode {
    fn same(&self, other: &Self) -> (r: bool) {
        self.id.same(&other.id) && self.provider_id.same(&other.provider_id) && self.name.same(
            &other.name,
        ) && self.protocol == other.protocol
    }
}

impl ExactEq for CasMaterial {
    fn same(&self, other: &Self) -> (r: bool) {
        self.active_subscription_id.same(&other.active_subscription_id)
            && self.desired_generation == other.desired_generation && self.providers.same(
            &other.providers,
        ) && self.nodes.same(&other.nodes) && self.pools.same(&other.pools)
            && self.default_target.same(&other.default_target) && self.routes.same(&other.routes)
    }
}

/// The editor-relevant part of a state.
pub open spec fn cas_of(s: AppStateView) -> CasMaterialView {
    CasMaterialView {
        active_subscription_id: s.active_subscription_id,
        desired_generation: s.active_configuration_generation,
        providers: Seq::new(
            s.providers.len(),
            |i: int| (s.providers[i].id, s.providers[i].subscription_id, s.providers[i].name),
        ),
        nodes: Seq::new(
            s.nodes.len(),
            |i: int| (s.nodes[i].id, s.nodes[i].provider_id, s.nodes[i].name, s.nodes[i].protocol),
        ),
        pools: s.pools,
        default_target: s.default_target,
        routes: s.routes,
    }
}

impl CasMaterial {
    /// The editor-relevant part of `state`.
    pub fn from_state(state: &AppState) -> (r: Self)
        ensures
            r@ == cas_of(state@),
    {
        let mut providers: Vec<CasProvider> = Vec::new();
        let mut i: usize = 0;
        while i < state.providers.len()
            invariant
                i <= state.providers.len(),
                providers.len() == i,
                forall|k: int| 0 <= k < i ==> #[trigger] providers.deep_view()[k] == cas_of(state@).providers[k],
            decreases state.providers.len() - i,
        {
            let p = &state.providers[i];
            let item = CasProvider {
                id: p.id.0.exact_clone(),
                subscription_id: p.subscription_id.0.exact_clone(),
                name: p.name.exact_clone(),
            };
            let ghost before = providers.deep_view();
            providers.push(item);
            proof {
                assert(providers.deep_view() =~= before.push(item.deep_view()));
            }
            i = i + 1;
        }
        let mut nodes: Vec<CasNode> = Vec::new();
        let mut i: usize = 0;
        while i < state.nodes.len()
            invariant
                i <= state.nodes.len(),
                nodes.len() == i,
                forall|k: int| 0 <= k < i ==> #[trigger] nodes.deep_view()[k] == cas_of(state@).nodes[k],
            decreases state.nodes.len() - i,
        {
            let n = &state.nodes[i];
            let item = CasNode {
                id: n.id.0.exact_clone(),
                provider_id: n.provider_id.0.exact_clone(),
                name: n.name.exact_clone(),
                protocol: n.protocol,
            };
            let ghost before = nodes.deep_view();
            nodes.push(item);
            proof {
                assert(nodes.deep_view() =~= before.push(item.deep_view()));
            }
            i = i + 1;
        }
        let r = CasMaterial {
            active_subscription_id: match &state.active_subscription_id {
                Some(id) => Some(id.0.exact_clone()),
                None => None,
            },
            desired_generation: state.active_configuration_generation,
            providers,
            nodes,
            pools: state.pools.exact_clone(),
            default_target: state.default_target.exact_clone(),
            routes: state.routes.exact_clone(),
        };
        proof {
            assert(r@.providers =~= cas_of(state@).providers);
            assert(r@.nodes =~= cas_of(state@).nodes);
        }
        r
    }
}

/// The editor's revision: it counts the distinct materials observed, so two
/// reads of the same material name the same revision.
pub struct RevisionState {
    pub revision: u64,
    pub material: Option<CasMaterial>,
}

/// Mathematical view of [`RevisionState`].
pub ghost struct RevisionStateView {
    pub revision: u64,
    pub material: Option<CasMaterialView>,
}

impl View for RevisionState {
    type V = RevisionStateView;

    open spec fn view(&self) -> RevisionStateView {
        RevisionStateView { revision: self.revision, material: self.material.deep_view() }
    }
}

/// What observing `m` does to a revision state: the same material keeps the
/// revision; a new one takes the next revision, which must stay within the
/// safe integer range.
pub open spec fn observed(r: RevisionStateView, m: CasMaterialView) -> Result<
    RevisionStateView,
    QueryError,
> {
    if r.material == Some(m) {
        Ok(r)
    } else if r.revision + 1 > MAX_SAFE_INTEGER {
        Err(QueryError::StateUnavailable)
    } else {
        Ok(RevisionStateView { revision: (r.revision + 1) as u64, material: Some(m) })
    }
}

impl RevisionState {
    /// No material observed yet; revision 0.
    pub fn new() -> (r: Self)
        ensures
            r@.revision == 0,
            r@.material is None,
    {
        RevisionState { revision: 0, material: None }
    }

    /// Observes `material` and names its revision.
    pub fn observe(&mut self, material: CasMaterial) -> (r: Result<u64, QueryError>)
        ensures
            match observed(old(self)@, material@) {
                Ok(next) => r == Ok::<u64, QueryError>(next.revision) && final(self)@ == next,
                Err(e) => r == Err::<u64, QueryError>(e) && final(self)@ == old(self)@,
            },
    {
        let unchanged = match &self.material {
            Some(current) => current.same(&material),
            None => false,
        };
        if unchanged {
            return Ok(self.revision);
        }
        if self.revision >= MAX_SAFE_INTEGER {
            return Err(QueryError::StateUnavailable);
        }
        self.revision = self.revision + 1;
        self.material = Some(material);
        Ok(self.revision)
    }

    /// Observes the material of a committed state.
    pub fn commit(&mut self, material: CasMaterial) -> (r: Result<u64, MutationError>)
        ensures
            match observed(old(self)@, material@) {
                Ok(next) => r == Ok::<u64, MutationError>(next.revision) && final(self)@ == next,
                Err(e) => r == Err::<u64, MutationError>(MutationError::StateUnavailable)
                    && final(self)@ == old(self)@,
            },
    {
        match self.observe(material) {
            Ok(v) => Ok(v),
            Err(_) => Err(MutationError::StateUnavailable),
        }
    }
}

/// Observing the same material twice names the same revision, and observing
/// a different one names the next.
pub proof fn law_revision_bumps_only_on_change(r: RevisionStateView, a: CasMaterialView, b: CasMaterialView)
    requires
        observed(r, a) is Ok,
    ensures
        observed(observed(r, a)->Ok_0, a) == Ok::<RevisionStateView, QueryError>(observed(r, a)->Ok_0),
        a != b && observed(observed(r, a)->Ok_0, b) is Ok ==> observed(observed(r, a)->Ok_0, b)->Ok_0.revision
            == observed(r, a)->Ok_0.revision + 1,
{
}

/// What an edit that succeeded leaves alone, and what saving it does to the
/// generation.
pub open spec fn edit_keeps(s: AppStateView, m: ProxyRoutingMutationView, next: AppStateView) -> bool {
    &&& next.active_configuration_generation == s.active_configuration_generation
    &&& next.active_subscription_id == s.active_subscription_id
    &&& next.subscriptions == s.subscriptions
    &&& next.providers == s.providers
    &&& next.nodes == s.nodes
    &&& m is SetManualSelection ==> candidate_of(next, m).active_configuration_generation
        == s.active_configuration_generation
    &&& !(m is SetManualSelection) && s.active_configuration_generation < MAX_SAFE_INTEGER
        ==> candidate_of(next, m).active_configuration_generation == s.active_configuration_generation + 1
    &&& m is SetManualSelection ==> next.routes == s.routes && next.default_target == s.default_target
        && next.pools.len() == s.pools.len()
}

/// An edit decides only the editor's part of the state: it never changes the
/// active subscription, its generation, the subscriptions, providers or
/// nodes. What is then saved keeps the generation for a manual choice and
/// advances it by one for every structural edit (below the largest safe
/// integer, where saving is refused); a manual choice changes only the
/// selection of one pool.
pub proof fn law_edit_generation(s: AppStateView, m: ProxyRoutingMutationView, fresh: Option<Seq<u8>>)
    requires
        !(m is ApplyConfiguration),
    ensures
        mutation_result(s, m, fresh) matches Ok((next, _)) ==> edit_keeps(s, m, next),
{
    match m {
        ProxyRoutingMutationView::CreateCustomPool { .. } => reveal(create_custom_pool_result),
        ProxyRoutingMutationView::UpdateCustomPool { .. } => reveal(update_custom_pool_result),
        ProxyRoutingMutationView::DeleteCustomPool { .. } => reveal(delete_custom_pool_result),
        ProxyRoutingMutationView::SetManualSelection { pool_id, .. } => {
            reveal(set_manual_selection_result);
            if pool_keys(s.pools).contains(pool_id) {
                lemma_first_index_some(pool_keys(s.pools), pool_id);
            }
        },
        ProxyRoutingMutationView::SetDefaultTarget { .. } => reveal(set_default_target_result),
        ProxyRoutingMutationView::CreateRoute { .. } => reveal(create_route_result),
        ProxyRoutingMutationView::UpdateRoute { .. } => reveal(update_route_result),
        ProxyRoutingMutationView::DeleteRoute { .. } => reveal(delete_route_result),
        ProxyRoutingMutationView::ReorderRoutes { .. } => reveal(reorder_routes_result),
        ProxyRoutingMutationView::ApplyConfiguration => {},
    }
}

/// An accepted route edit numbers the routes by position. A created route
/// sits at its insertion index, with its trimmed name and a fresh id, and the
/// other routes keep their order around it; a deleted route is gone and the
/// others keep their order; a reorder gives exactly the requested order, each
/// route being one of the routes there were.
pub proof fn law_route_edits_renumber_by_position(s: AppStateView, m: ProxyRoutingMutationView, fresh: Option<Seq<u8>>)
    requires
        m is CreateRoute || m is DeleteRoute || m is ReorderRoutes,
        mutation_result(s, m, fresh) is Ok,
    ensures
        ({
            let next = match mutation_result(s, m, fresh) {
                Ok((n, _)) => n,
                Err(_) => s,
            };
            &&& forall|k: int| 0 <= k < next.routes.len() ==> (#[trigger] next.routes[k]).priority == k
            &&& m matches ProxyRoutingMutationView::CreateRoute { name, insert_at, .. } ==> {
                &&& next.routes.len() == s.routes.len() + 1
                &&& next.routes[insert_at as int].name == trim_seq(name)
                &&& fresh matches Some(b) && next.routes[insert_at as int].id == fresh_id("route"@, b)
                &&& forall|k: int| 0 <= k < insert_at ==> (#[trigger] next.routes[k]).id == s.routes[k].id
                &&& forall|k: int| insert_at < k <= s.routes.len() ==> (#[trigger] next.routes[k]).id == s.routes[k
                    - 1].id
            }
            &&& m matches ProxyRoutingMutationView::DeleteRoute { id } ==> exists|i: int|
                0 <= i < s.routes.len() && (#[trigger] s.routes[i]).id == id && route_keys(next.routes)
                    == route_keys(s.routes).remove(i)
            &&& m matches ProxyRoutingMutationView::ReorderRoutes { route_ids } ==> {
                &&& route_keys(next.routes) == route_ids
                &&& forall|k: int| #![trigger next.routes[k]] 0 <= k < next.routes.len() ==> exists|j: int|
                    #![trigger s.routes[j]] 0 <= j < s.routes.len() && next.routes[k] == RoutePolicyView {
                        priority: k as i32,
                        ..s.routes[j]
                    }
            }
        }),
{
    match m {
        ProxyRoutingMutationView::CreateRoute { .. } => {
            reveal(create_route_result);
        },
        ProxyRoutingMutationView::DeleteRoute { id } => {
            reveal(delete_route_result);
            let keys = route_keys(s.routes);
            lemma_first_index_some(keys, id);
            let i = first_index(keys, id)->0;
            let next = with_routes(s, prioritized(s.routes.remove(i)));
            assert(route_keys(next.routes) =~= keys.remove(i));
            assert(s.routes[i].id == id);
        },
        ProxyRoutingMutationView::ReorderRoutes { route_ids } => {
            reveal(reorder_routes_result);
            let keys = route_keys(s.routes);
            let next = with_routes(s, prioritized(reordered(route_ids, s.routes)));
            assert forall|k: int| 0 <= k < route_ids.len() implies route_keys(next.routes)[k] == route_ids[k]
                && next.routes[k] == RoutePolicyView { priority: k as i32, ..s.routes[first_index(keys, route_ids[k])->0] }
            by {
                assert(keys.contains(route_ids[k]));
                lemma_first_index_some(keys, route_ids[k]);
            }
            assert(route_keys(next.routes) =~= route_ids);
            assert forall|k: int| #![trigger next.routes[k]] 0 <= k < next.routes.len() implies exists|j: int|
                #![trigger s.routes[j]] 0 <= j < s.routes.len() && next.routes[k] == RoutePolicyView { priority: k as i32, ..s.routes[j] }
            by {
                assert(keys.contains(route_ids[k]));
                lemma_first_index_some(keys, route_ids[k]);
                let j = first_index(keys, route_ids[k])->0;
                assert(0 <= j < s.routes.len());
            }
        },
        _ => {},
    }
}

/// An accepted route update changes exactly the route it names: that route
/// keeps its identity and its priority and takes the requested name
/// (trimmed), switch, matcher and target; every other route, the pools and
/// the default target stay as they were.
pub proof fn law_route_update_takes_the_request(
    s: AppStateView,
    id: Seq<char>,
    name: Seq<char>,
    enabled: bool,
    matcher: TrafficMatcherView,
    target: RouteTargetView,
    fresh: Option<Seq<u8>>,
)
    requires
        mutation_result(s, ProxyRoutingMutationView::UpdateRoute { id, name, enabled, matcher, target }, fresh) is Ok,
    ensures
        ({
            let next = mutation_result(
                s,
                ProxyRoutingMutationView::UpdateRoute { id, name, enabled, matcher, target },
                fresh,
            )->Ok_0.0;
            &&& next.routes.len() == s.routes.len()
            &&& next.pools == s.pools
            &&& next.default_target == s.default_target
            &&& exists|i: int|
                #![trigger s.routes[i]]
                0 <= i < s.routes.len() && s.routes[i].id == id && next.routes[i] == RoutePolicyView {
                    id,
                    name: trim_seq(name),
                    enabled,
                    priority: s.routes[i].priority,
                    matcher: matcher_from(matcher),
                    target,
                } && forall|j: int| 0 <= j < s.routes.len() && j != i ==> #[trigger] next.routes[j] == s.routes[j]
        }),
{
    reveal(update_route_result);
    lemma_first_index_some(route_keys(s.routes), id);
    let i = first_index(route_keys(s.routes), id)->0;
    assert(s.routes[i].id == id);
}

/// An accepted manual choice selects exactly the chosen node in the pool it
/// names, which otherwise stays as it was, and reports that choice; every
/// other pool, the routes and the default target stay as they were.
pub proof fn law_manual_selection_takes_the_choice(
    s: AppStateView,
    pool_id: Seq<char>,
    node_id: Seq<char>,
    fresh: Option<Seq<u8>>,
)
    requires
        mutation_result(s, ProxyRoutingMutationView::SetManualSelection { pool_id, node_id }, fresh) is Ok,
    ensures
        ({
            let (next, outcome) = mutation_result(
                s,
                ProxyRoutingMutationView::SetManualSelection { pool_id, node_id },
                fresh,
            )->Ok_0;
            &&& next.pools.len() == s.pools.len()
            &&& next.routes == s.routes
            &&& next.default_target == s.default_target
            &&& outcome matches MutationOutcomeView::SelectorSavedOnly { pool_id: p, node_id: n, .. } && p == pool_id
                && n == node_id
            &&& exists|i: int|
                #![trigger s.pools[i]]
                0 <= i < s.pools.len() && s.pools[i].id == pool_id && next.pools[i] == NodePoolView {
                    selection: SelectionPolicyView::Manual { selected_node_id: Some(node_id) },
                    ..s.pools[i]
                } && forall|j: int| 0 <= j < s.pools.len() && j != i ==> #[trigger] next.pools[j] == s.pools[j]
        }),
{
    reveal(set_manual_selection_result);
    lemma_first_index_some(pool_keys(s.pools), pool_id);
    let i = first_index(pool_keys(s.pools), pool_id)->0;
    assert(s.pools[i].id == pool_id);
}

/// The first pool of `s` with the id `id`.
pub open spec fn first_pool(s: AppStateView, id: Seq<char>) -> Option<NodePoolView> {
    match first_index(pool_keys(s.pools), id) {
        Some(i) => Some(s.pools[i]),
        None => None,
    }
}

/// Edits past a limit, edits that name a pool or route that is not there,
/// and edits that would break what the pools are for are refused, once the
/// names, references, sources, selection and matcher they carry are well
/// formed: a pool beyond the pool limit, or a route beyond the route limit or
/// inserted past the end, fails validation; an unknown pool or route is not
/// found; changing or deleting a pool that is not custom, deleting a pool
/// that a route or the default target uses, and choosing a node by hand in a
/// pool that does not select by hand are reference conflicts.
pub proof fn law_edit_refusals(s: AppStateView, m: ProxyRoutingMutationView, fresh: Option<Seq<u8>>)
    ensures
        m is CreateCustomPool && s.pools.len() >= MAX_POOLS ==> mutation_result(s, m, fresh) == Err::<
            (AppStateView, MutationOutcomeView),
            MutationError,
        >(MutationError::ValidationFailed),
        m matches ProxyRoutingMutationView::CreateRoute { insert_at, .. } && (s.routes.len() >= MAX_ROUTES || insert_at
            > s.routes.len()) ==> mutation_result(s, m, fresh) == Err::<
            (AppStateView, MutationOutcomeView),
            MutationError,
        >(MutationError::ValidationFailed),
        m matches ProxyRoutingMutationView::UpdateCustomPool { id, name, sources, selection, .. } && reference_ok(id)
            && name_ok(name) && sources_ok(sources) && selection_ok(selection) && !pool_keys(s.pools).contains(id)
            ==> mutation_result(s, m, fresh) == Err::<(AppStateView, MutationOutcomeView), MutationError>(MutationError::NotFound),
        m matches ProxyRoutingMutationView::UpdateCustomPool { id, name, sources, selection, .. } && reference_ok(id)
            && name_ok(name) && sources_ok(sources) && selection_ok(selection) && first_pool(s, id) is Some
            && first_pool(s, id)->0.kind != PoolKind::Custom ==> mutation_result(s, m, fresh) == Err::<(AppStateView, MutationOutcomeView), MutationError>(MutationError::ReferenceConflict),
        m matches ProxyRoutingMutationView::DeleteCustomPool { id } && reference_ok(id) && !pool_keys(s.pools).contains(
            id,
        ) ==> mutation_result(s, m, fresh) == Err::<(AppStateView, MutationOutcomeView), MutationError>(MutationError::NotFound),
        m matches ProxyRoutingMutationView::DeleteCustomPool { id } && reference_ok(id) && first_pool(s, id) is Some && (
        first_pool(s, id)->0.kind != PoolKind::Custom || pool_referenced(s, id)) ==> mutation_result(s, m, fresh) == Err::<(AppStateView, MutationOutcomeView), MutationError>(MutationError::ReferenceConflict),
        m matches ProxyRoutingMutationView::SetManualSelection { pool_id, node_id } && reference_ok(pool_id)
            && reference_ok(node_id) && !pool_keys(s.pools).contains(pool_id) ==> mutation_result(s, m, fresh) == Err::<(AppStateView, MutationOutcomeView), MutationError>(MutationError::NotFound),
        m matches ProxyRoutingMutationView::SetManualSelection { pool_id, node_id } && reference_ok(pool_id)
            && reference_ok(node_id) && first_pool(s, pool_id) is Some && !(
        first_pool(s, pool_id)->0.selection is Manual) ==> mutation_result(s, m, fresh) == Err::<(AppStateView, MutationOutcomeView), MutationError>(MutationError::ReferenceConflict),
        m matches ProxyRoutingMutationView::UpdateRoute { id, name, matcher, target, .. } && reference_ok(id)
            && name_ok(name) && matcher_ok(matcher) && target_ok(target) && !route_keys(s.routes).contains(id)
            ==> mutation_result(s, m, fresh) == Err::<(AppStateView, MutationOutcomeView), MutationError>(
            MutationError::NotFound,
        ),
        m matches ProxyRoutingMutationView::DeleteRoute { id } && reference_ok(id) && !route_keys(s.routes).contains(
            id,
        ) ==> mutation_result(s, m, fresh) == Err::<(AppStateView, MutationOutcomeView), MutationError>(
            MutationError::NotFound,
        ),
{
    reveal(create_custom_pool_result);
    reveal(create_route_result);
    reveal(update_custom_pool_result);
    reveal(delete_custom_pool_result);
    reveal(set_manual_selection_result);
    reveal(update_route_result);
    reveal(delete_route_result);
}

// ---------------------------------------------------------------------------
// Error mappings
// ---------------------------------------------------------------------------

/// A read failure as an edit failure.
pub fn map_query_error(error: QueryError) -> (r: MutationError)
    ensures
        r == match error {
            QueryError::Busy => MutationError::Busy,
            QueryError::StateUnavailable => MutationError::StateUnavailable,
            QueryError::RuntimeUnavailable => MutationError::RuntimeUnavailable,
        },
{
    match error {
        QueryError::Busy => MutationError::Busy,
        QueryError::StateUnavailable => MutationError::StateUnavailable,
        QueryError::RuntimeUnavailable => MutationError::RuntimeUnavailable,
    }
}

/// A failure to enter the state gate as a read failure.
pub fn map_query_access(error: crate::state_access::StateAccessError) -> (r: QueryError)
    ensures
        r == match error {
            crate::state_access::StateAccessError::Busy => QueryError::Busy,
            crate::state_access::StateAccessError::Unavailable => QueryError::StateUnavailable,
        },
{
    match error {
        crate::state_access::StateAccessError::Busy => QueryError::Busy,
        crate::state_access::StateAccessError::Unavailable => QueryError::StateUnavailable,
    }
}

/// The edit failure a rejected candidate state reports: broken references
/// are a reference conflict, everything else a validation failure.
pub open spec fn state_validation_mutation_error(e: crate::validation::StateValidationError) -> MutationError {
    match e {
        crate::validation::StateValidationError::MissingSubscription
        | crate::validation::StateValidationError::MissingProvider
        | crate::validation::StateValidationError::MissingPool
        | crate::validation::StateValidationError::EmptyPoolSources
        | crate::validation::StateValidationError::InvalidFilter
        | crate::validation::StateValidationError::InvalidSelection
        | crate::validation::StateValidationError::EmptyPoolMembership
        | crate::validation::StateValidationError::InactivePoolTarget => MutationError::ReferenceConflict,
        _ => MutationError::ValidationFailed,
    }
}

/// Maps a state validation failure onto an edit failure.
pub fn map_state_validation(error: crate::validation::StateValidationError) -> (r: MutationError)
    ensures
        r == state_validation_mutation_error(error),
{
    match error {
        crate::validation::StateValidationError::MissingSubscription
        | crate::validation::StateValidationError::MissingProvider
        | crate::validation::StateValidationError::MissingPool
        | crate::validation::StateValidationError::EmptyPoolSources
        | crate::validation::StateValidationError::InvalidFilter
        | crate::validation::StateValidationError::InvalidSelection
        | crate::validation::StateValidationError::EmptyPoolMembership
        | crate::validation::StateValidationError::InactivePoolTarget => MutationError::ReferenceConflict,
        _ => MutationError::ValidationFailed,
    }
}

/// The edit failure an activation failure reports.
pub open spec fn activation_mutation_error(error: ActivationError) -> MutationError {
    match error {
        ActivationError::InvalidInput | ActivationError::IdentityFailed => MutationError::InvalidInput,
        ActivationError::Busy => MutationError::Busy,
        ActivationError::NotFound => MutationError::NotFound,
        ActivationError::StateUnavailable => MutationError::StateUnavailable,
        ActivationError::StateChanged => MutationError::StateChanged,
        ActivationError::SelectionConflict => MutationError::Conflict,
        ActivationError::ConfigurationFailed => MutationError::ConfigurationFailed,
        ActivationError::SaveFailed => MutationError::SaveFailed,
        ActivationError::StopFailed => MutationError::StopFailed,
        ActivationError::StartFailed => MutationError::StartFailed,
        ActivationError::RecoveryRequired => MutationError::RecoveryRequired,
    }
}

/// Maps an activation failure onto an edit failure.
pub fn map_activation_error(error: ActivationError) -> (r: MutationError)
    ensures
        r == activation_mutation_error(error),
{
    match error {
        ActivationError::InvalidInput | ActivationError::IdentityFailed => MutationError::InvalidInput,
        ActivationError::Busy => MutationError::Busy,
        ActivationError::NotFound => MutationError::NotFound,
        ActivationError::StateUnavailable => MutationError::StateUnavailable,
        ActivationError::StateChanged => MutationError::StateChanged,
        ActivationError::SelectionConflict => MutationError::Conflict,
        ActivationError::ConfigurationFailed => MutationError::ConfigurationFailed,
        ActivationError::SaveFailed => MutationError::SaveFailed,
        ActivationError::StopFailed => MutationError::StopFailed,
        ActivationError::StartFailed => MutationError::StartFailed,
        ActivationError::RecoveryRequired => MutationError::RecoveryRequired,
    }
}

// ---------------------------------------------------------------------------
// Manual selection outcome
// ---------------------------------------------------------------------------

/// The outcome a runtime result of a manual selection reports.
pub open spec fn manual_outcome(
    pool_id: Seq<char>,
    node_id: Seq<char>,
    result: ManualSelectionRuntimeResultView,
) -> MutationOutcomeView {
    match result {
        ManualSelectionRuntimeResultView::Applied => MutationOutcomeView::SelectorApplied {
            pool_id,
            node_id,
        },
        ManualSelectionRuntimeResultView::NotApplied { runtime_node_id } => {
            MutationOutcomeView::SelectorNotApplied { pool_id, node_id, runtime_node_id }
        },
        ManualSelectionRuntimeResultView::SavedOnly(reason) => {
            MutationOutcomeView::SelectorSavedOnly {
                pool_id,
                node_id,
                reason: match reason {
                    ManualSelectionSavedOnlyReason::RuntimeStopped => SelectorSavedOnlyReason::RuntimeStopped,
                    ManualSelectionSavedOnlyReason::RuntimeNotReady => SelectorSavedOnlyReason::RuntimeNotReady,
                    ManualSelectionSavedOnlyReason::NotInAppliedArtifact => SelectorSavedOnlyReason::NotInAppliedArtifact,
                    ManualSelectionSavedOnlyReason::DispatchUnavailable => SelectorSavedOnlyReason::DispatchUnavailable,
                },
            }
        },
        ManualSelectionRuntimeResultView::ApplyUnknown(reason) => {
            MutationOutcomeView::SelectorApplyUnknown {
                pool_id,
                node_id,
                reason: match reason {
                    ManualSelectionUnknownReason::ReadBackUnavailable => SelectorApplyUnknownReason::ReadBackUnavailable,
                    ManualSelectionUnknownReason::UnknownRuntimeNode => SelectorApplyUnknownReason::UnknownRuntimeNode,
                    ManualSelectionUnknownReason::InstanceChanged => SelectorApplyUnknownReason::InstanceChanged,
                },
            }
        },
    }
}

/// The outcome that the runtime's answer to a manual selection reports.
pub fn map_manual_result(pool_id: String, node_id: String, result: ManualSelectionRuntimeResult) -> (r:
    MutationOutcome)
    ensures
        r.deep_view() == manual_outcome(pool_id@, node_id@, result@),
{
    match result {
        ManualSelectionRuntimeResult::Applied => MutationOutcome::SelectorApplied { pool_id, node_id },
        ManualSelectionRuntimeResult::NotApplied { runtime_node_id } => {
            MutationOutcome::SelectorNotApplied { pool_id, node_id, runtime_node_id: runtime_node_id.0 }
        },
        ManualSelectionRuntimeResult::SavedOnly(reason) => MutationOutcome::SelectorSavedOnly {
            pool_id,
            node_id,
            reason: match reason {
                ManualSelectionSavedOnlyReason::RuntimeStopped => SelectorSavedOnlyReason::RuntimeStopped,
                ManualSelectionSavedOnlyReason::RuntimeNotReady => SelectorSavedOnlyReason::RuntimeNotReady,
                ManualSelectionSavedOnlyReason::NotInAppliedArtifact => SelectorSavedOnlyReason::NotInAppliedArtifact,
                ManualSelectionSavedOnlyReason::DispatchUnavailable => SelectorSavedOnlyReason::DispatchUnavailable,
            },
        },
        ManualSelectionRuntimeResult::ApplyUnknown(reason) => MutationOutcome::SelectorApplyUnknown {
            pool_id,
            node_id,
            reason: match reason {
                ManualSelectionUnknownReason::ReadBackUnavailable => SelectorApplyUnknownReason::ReadBackUnavailable,
                ManualSelectionUnknownReason::UnknownRuntimeNode => SelectorApplyUnknownReason::UnknownRuntimeNode,
                ManualSelectionUnknownReason::InstanceChanged => SelectorApplyUnknownReason::InstanceChanged,
            },
        },
    }
}

/// Pool `pool_id` of `s` still wants `node_id` as its manual choice.
pub open spec fn still_desired(s: AppStateView, pool_id: Seq<char>, node_id: Seq<char>) -> bool {
    exists|i: int|
        0 <= i < s.pools.len() && (#[trigger] s.pools[i]).id == pool_id && s.pools[i].selection
            == SelectionPolicyView::Manual { selected_node_id: Some(node_id) }
}

/// The outcome of a saved manual selection once the runtime answered: the
/// runtime's answer, unless a reload proved that a newer edit replaced the
/// choice, which makes the outcome unknown ("superseded").
pub open spec fn settled_manual_outcome(
    pool_id: Seq<char>,
    node_id: Seq<char>,
    result: ManualSelectionRuntimeResultView,
    s: AppStateView,
    reload_proved_latest: bool,
) -> MutationOutcomeView {
    if still_desired(s, pool_id, node_id) || !reload_proved_latest {
        manual_outcome(pool_id, node_id, result)
    } else {
        MutationOutcomeView::SelectorApplyUnknown {
            pool_id,
            node_id,
            reason: SelectorApplyUnknownReason::Superseded,
        }
    }
}

/// Settles the outcome of a saved manual selection against the latest state.
pub fn settle_manual_outcome(
    pool_id: String,
    node_id: String,
    runtime_result: ManualSelectionRuntimeResult,
    state: &AppState,
    reload_proved_latest: bool,
) -> (r: MutationOutcome)
    ensures
        r.deep_view() == settled_manual_outcome(
            pool_id@,
            node_id@,
            runtime_result@,
            state@,
            reload_proved_latest,
        ),
{
    let mut desired = false;
    let mut i: usize = 0;
    while i < state.pools.len()
        invariant
            i <= state.pools.len(),
            !desired ==> forall|k: int|
                0 <= k < i ==> !((#[trigger] state@.pools[k]).id == pool_id@ && state@.pools[k].selection
                    == SelectionPolicyView::Manual { selected_node_id: Some(node_id@) }),
            desired ==> still_desired(state@, pool_id@, node_id@),
        decreases state.pools.len() - i,
    {
        let pool = &state.pools[i];
        if crate::text::str_eq(pool.id.0.as_str(), pool_id.as_str()) {
            if let SelectionPolicy::Manual { selected_node_id: Some(id) } = &pool.selection {
                if crate::text::str_eq(id.0.as_str(), node_id.as_str()) {
                    proof {
                        assert(state@.pools[i as int].id == pool_id@);
                    }
                    desired = true;
                }
            }
        }
        i = i + 1;
    }
    if desired || !reload_proved_latest {
        map_manual_result(pool_id, node_id, runtime_result)
    } else {
        MutationOutcome::SelectorApplyUnknown {
            pool_id,
            node_id,
            reason: SelectorApplyUnknownReason::Superseded,
        }
    }
}


// ---------------------------------------------------------------------------
// Runtime progress as the editor reports it
// ---------------------------------------------------------------------------

/// The runtime as the editor shows it.
#[derive(Clone, Copy, Debug, PartialEq, Eq, Structural)]
pub enum RuntimeState {
    Stopped,
    Ready,
    Transitioning,
    RecoveryRequired,
}

/// Why applying the saved configuration failed.
#[derive(Clone, Copy, Debug, PartialEq, Eq, Structural)]
pub enum ApplyFailure {
    ConfigurationFailed,
    StateChanged,
    StopFailed,
    StartFailed,
    RecoveryRequired,
}

/// How far the saved configuration has reached the runtime.
#[derive(Clone, Debug, PartialEq, Eq)]
pub enum ApplyState {
    Applied,
    SavedPendingApply,
    Applying { operation_id: String },
    SavedApplyFailed { operation_id: String, error: ApplyFailure },
    ApplyUnknown { operation_id: String },
}

/// Mathematical view of [`ApplyState`].
pub ghost enum ApplyStateView {
    Applied,
    SavedPendingApply,
    Applying { operation_id: Seq<char> },
    SavedApplyFailed { operation_id: Seq<char>, error: ApplyFailure },
    ApplyUnknown { operation_id: Seq<char> },
}

impl DeepView for ApplyState {
    type V = ApplyStateView;

    open spec fn deep_view(&self) -> ApplyStateView {
        match self {
            ApplyState::Applied => ApplyStateView::Applied,
            ApplyState::SavedPendingApply => ApplyStateView::SavedPendingApply,
            ApplyState::Applying { operation_id } => ApplyStateView::Applying {
                operation_id: operation_id@,
            },
            ApplyState::SavedApplyFailed { operation_id, error } => {
                ApplyStateView::SavedApplyFailed { operation_id: operation_id@, error: *error }
            },
            ApplyState::ApplyUnknown { operation_id } => ApplyStateView::ApplyUnknown {
                operation_id: operation_id@,
            },
        }
    }
}

/// The failure a definite routing-apply failure reports.
pub open spec fn terminal_apply_failure(f: RoutingApplyTerminalFailure) -> ApplyFailure {
    match f {
        RoutingApplyTerminalFailure::ConfigurationFailed => ApplyFailure::ConfigurationFailed,
        RoutingApplyTerminalFailure::StateChanged => ApplyFailure::StateChanged,
    }
}

/// The runtime state and apply state the editor reports.
///
/// A definite routing-apply failure for exactly the desired subscription and
/// generation wins; a failure bound to an older tuple whose operation is
/// still the observed switch means the save is pending. Otherwise an
/// observed switch in progress is "applying" and a finished failed one names
/// its failure, both only for the current apply attempt. Without any of
/// these the configuration is applied exactly when the ready runtime runs the
/// desired subscription and generation.
pub open spec fn canonical_state(
    switch: Option<SubscriptionSwitchView>,
    applied_generation: Option<u64>,
    observed_runtime: RuntimeState,
    desired_id: Option<Seq<char>>,
    desired_generation: u64,
    applied_subscription_id: Option<Seq<char>>,
    apply_attempt_is_current: bool,
    terminal: Option<RoutingApplyTerminalView>,
) -> (RuntimeState, ApplyStateView) {
    if terminal is Some && terminal->0.active_subscription_id == desired_id
        && terminal->0.desired_generation == desired_generation {
        (
            observed_runtime,
            ApplyStateView::SavedApplyFailed {
                operation_id: terminal->0.operation_id,
                error: terminal_apply_failure(terminal->0.failure),
            },
        )
    } else if terminal is Some && switch is Some && switch->0.operation_id
        == terminal->0.operation_id {
        (observed_runtime, ApplyStateView::SavedPendingApply)
    } else if switch is Some && switch->0.status != SubscriptionSwitchStatus::Ready {
        let op = switch->0;
        if !apply_attempt_is_current {
            (observed_runtime, ApplyStateView::SavedPendingApply)
        } else {
            match op.status {
                SubscriptionSwitchStatus::Cancelled => (
                    observed_runtime,
                    ApplyStateView::SavedApplyFailed {
                        operation_id: op.operation_id,
                        error: ApplyFailure::StateChanged,
                    },
                ),
                SubscriptionSwitchStatus::Failed => match op.error_code {
                    Some(SubscriptionSwitchErrorCode::ConfigurationFailed) | Some(
                        SubscriptionSwitchErrorCode::SaveFailed,
                    ) => (
                        observed_runtime,
                        ApplyStateView::SavedApplyFailed {
                            operation_id: op.operation_id,
                            error: ApplyFailure::ConfigurationFailed,
                        },
                    ),
                    Some(SubscriptionSwitchErrorCode::StopFailed) => (
                        RuntimeState::RecoveryRequired,
                        ApplyStateView::SavedApplyFailed {
                            operation_id: op.operation_id,
                            error: ApplyFailure::StopFailed,
                        },
                    ),
                    Some(SubscriptionSwitchErrorCode::StartFailed) => (
                        RuntimeState::Stopped,
                        ApplyStateView::SavedApplyFailed {
                            operation_id: op.operation_id,
                            error: ApplyFailure::StartFailed,
                        },
                    ),
                    Some(SubscriptionSwitchErrorCode::RecoveryRequired) => (
                        RuntimeState::RecoveryRequired,
                        ApplyStateView::SavedApplyFailed {
                            operation_id: op.operation_id,
                            error: ApplyFailure::RecoveryRequired,
                        },
                    ),
                    Some(SubscriptionSwitchErrorCode::OperationTimedOut) => (
                        RuntimeState::Transitioning,
                        ApplyStateView::ApplyUnknown { operation_id: op.operation_id },
                    ),
                    _ => (
                        observed_runtime,
                        ApplyStateView::SavedApplyFailed {
                            operation_id: op.operation_id,
                            error: ApplyFailure::StateChanged,
                        },
                    ),
                },
                _ => (
                    RuntimeState::Transitioning,
                    ApplyStateView::Applying { operation_id: op.operation_id },
                ),
            }
        }
    } else if observed_runtime == RuntimeState::Ready && applied_generation == Some(
        desired_generation,
    ) && applied_subscription_id == desired_id {
        (RuntimeState::Ready, ApplyStateView::Applied)
    } else {
        (observed_runtime, ApplyStateView::SavedPendingApply)
    }
}

fn opt_text_eq(a: &Option<String>, b: &Option<String>) -> (r: bool)
    ensures
        r == (a.deep_view() == b.deep_view()),
{
    a.same(b)
}

/// The runtime state and apply state the editor reports for `state`.
pub fn canonical_runtime_apply_state(
    observation: &RuntimeObservationSnapshot,
    observed_runtime: RuntimeState,
    state: &AppState,
    applied_subscription_id: &Option<String>,
    apply_attempt_is_current: bool,
    routing_terminal: Option<&RoutingApplyTerminal>,
) -> (r: (RuntimeState, ApplyState))
    ensures
        (r.0, r.1.deep_view()) == canonical_state(
            observation.subscription_switch.deep_view(),
            observation.applied_configuration_generation,
            observed_runtime,
            state@.active_subscription_id,
            state.active_configuration_generation,
            applied_subscription_id.deep_view(),
            apply_attempt_is_current,
            match routing_terminal {
                Some(t) => Some(t.deep_view()),
                None => None,
            },
        ),
{
    let desired: Option<String> = match &state.active_subscription_id {
        Some(id) => Some(id.0.exact_clone()),
        None => None,
    };
    if let Some(terminal) = routing_terminal {
        if opt_text_eq(&terminal.active_subscription_id, &desired) && terminal.desired_generation
            == state.active_configuration_generation {
            let error = match terminal.failure {
                RoutingApplyTerminalFailure::ConfigurationFailed => ApplyFailure::ConfigurationFailed,
                RoutingApplyTerminalFailure::StateChanged => ApplyFailure::StateChanged,
            };
            return (
                observed_runtime,
                ApplyState::SavedApplyFailed {
                    operation_id: terminal.operation_id.exact_clone(),
                    error,
                },
            );
        }
        if let Some(op) = &observation.subscription_switch {
            if op.operation_id.same(&terminal.operation_id) {
                return (observed_runtime, ApplyState::SavedPendingApply);
            }
        }
    }
    if let Some(op) = &observation.subscription_switch {
        if op.status != SubscriptionSwitchStatus::Ready {
            if !apply_attempt_is_current {
                return (observed_runtime, ApplyState::SavedPendingApply);
            }
            let id = op.operation_id.exact_clone();
            return match op.status {
                SubscriptionSwitchStatus::Cancelled => (
                    observed_runtime,
                    ApplyState::SavedApplyFailed { operation_id: id, error: ApplyFailure::StateChanged },
                ),
                SubscriptionSwitchStatus::Failed => match op.error_code {
                    Some(SubscriptionSwitchErrorCode::ConfigurationFailed) | Some(
                        SubscriptionSwitchErrorCode::SaveFailed,
                    ) => (
                        observed_runtime,
                        ApplyState::SavedApplyFailed {
                            operation_id: id,
                            error: ApplyFailure::ConfigurationFailed,
                        },
                    ),
                    Some(SubscriptionSwitchErrorCode::StopFailed) => (
                        RuntimeState::RecoveryRequired,
                        ApplyState::SavedApplyFailed { operation_id: id, error: ApplyFailure::StopFailed },
                    ),
                    Some(SubscriptionSwitchErrorCode::StartFailed) => (
                        RuntimeState::Stopped,
                        ApplyState::SavedApplyFailed { operation_id: id, error: ApplyFailure::StartFailed },
                    ),
                    Some(SubscriptionSwitchErrorCode::RecoveryRequired) => (
                        RuntimeState::RecoveryRequired,
                        ApplyState::SavedApplyFailed {
                            operation_id: id,
                            error: ApplyFailure::RecoveryRequired,
                        },
                    ),
                    Some(SubscriptionSwitchErrorCode::OperationTimedOut) => (
                        RuntimeState::Transitioning,
                        ApplyState::ApplyUnknown { operation_id: id },
                    ),
                    _ => (
                        observed_runtime,
                        ApplyState::SavedApplyFailed { operation_id: id, error: ApplyFailure::StateChanged },
                    ),
                },
                _ => (RuntimeState::Transitioning, ApplyState::Applying { operation_id: id }),
            };
        }
    }
    let applied_matches = match observation.applied_configuration_generation {
        Some(g) => g == state.active_configuration_generation,
        None => false,
    };
    if observed_runtime == RuntimeState::Ready && applied_matches && opt_text_eq(
        applied_subscription_id,
        &desired,
    ) {
        (RuntimeState::Ready, ApplyState::Applied)
    } else {
        (observed_runtime, ApplyState::SavedPendingApply)
    }
}


// ---------------------------------------------------------------------------
// Selectors and the editor's snapshot
// ---------------------------------------------------------------------------

/// How a manual pool's saved choice relates to what the core runs.
#[derive(Clone, Copy, Debug, PartialEq, Eq, Structural)]
pub enum SelectorState {
    InSync,
    SavedOnly,
    NotApplied,
    Unknown,
}

/// A manual pool's saved choice and the node the core reported for it.
#[derive(Clone, Debug, PartialEq, Eq)]
pub struct SelectorSnapshot {
    pub pool_id: String,
    pub desired_node_id: Option<String>,
    pub runtime_node_id: Option<String>,
    pub state: SelectorState,
}

/// Mathematical view of [`SelectorSnapshot`].
pub ghost struct SelectorSnapshotView {
    pub pool_id: Seq<char>,
    pub desired_node_id: Option<Seq<char>>,
    pub runtime_node_id: Option<Seq<char>>,
    pub state: SelectorState,
}

impl DeepView for SelectorSnapshot {
    type V = SelectorSnapshotView;

    open spec fn deep_view(&self) -> SelectorSnapshotView {
        SelectorSnapshotView {
            pool_id: self.pool_id@,
            desired_node_id: self.desired_node_id.deep_view(),
            runtime_node_id: self.runtime_node_id.deep_view(),
            state: self.state,
        }
    }
}

/// The selector line of one pool, for manual pools only. The runtime node is
/// shown only while the runtime is ready.
pub open spec fn selector_of(
    p: NodePoolView,
    nodes: Map<Seq<char>, Seq<char>>,
    rs: RuntimeState,
) -> Option<SelectorSnapshotView> {
    match p.selection {
        SelectionPolicyView::Manual { selected_node_id } => {
            let runtime = if rs == RuntimeState::Ready && nodes.contains_key(p.id) {
                Some(nodes[p.id])
            } else {
                None
            };
            let st = if selected_node_id is Some && runtime is Some {
                if selected_node_id == runtime {
                    SelectorState::InSync
                } else {
                    SelectorState::NotApplied
                }
            } else if runtime is None && rs == RuntimeState::Ready {
                SelectorState::Unknown
            } else {
                SelectorState::SavedOnly
            };
            Some(
                SelectorSnapshotView {
                    pool_id: p.id,
                    desired_node_id: selected_node_id,
                    runtime_node_id: runtime,
                    state: st,
                },
            )
        },
        SelectionPolicyView::UrlTest { .. } => None,
    }
}

/// The selector lines of all manual pools, in pool order.
pub open spec fn selectors_of(
    pools: Seq<NodePoolView>,
    nodes: Map<Seq<char>, Seq<char>>,
    rs: RuntimeState,
) -> Seq<SelectorSnapshotView>
    decreases pools.len(),
{
    if pools.len() == 0 {
        Seq::empty()
    } else {
        let rest = selectors_of(pools.drop_last(), nodes, rs);
        match selector_of(pools.last(), nodes, rs) {
            Some(x) => rest.push(x),
            None => rest,
        }
    }
}

/// The selector lines of `state`'s manual pools.
pub fn selectors(
    state: &AppState,
    runtime_nodes: &SelectorRuntimeNodes,
    runtime_state: RuntimeState,
) -> (r: Vec<SelectorSnapshot>)
    ensures
        r.deep_view() == selectors_of(state@.pools, runtime_nodes.view_map(), runtime_state),
{
    let ghost pools = state@.pools;
    let mut r: Vec<SelectorSnapshot> = Vec::new();
    let mut i: usize = 0;
    while i < state.pools.len()
        invariant
            i <= state.pools.len(),
            pools == state@.pools,
            r.deep_view() == selectors_of(pools.take(i as int), runtime_nodes.view_map(), runtime_state),
        decreases state.pools.len() - i,
    {
        proof {
            assert(pools.take(i + 1).drop_last() =~= pools.take(i as int));
            assert(pools.take(i + 1).last() == pools[i as int]);
        }
        let p = &state.pools[i];
        if let SelectionPolicy::Manual { selected_node_id } = &p.selection {
            let runtime: Option<NodeId> = if runtime_state == RuntimeState::Ready {
                runtime_nodes.get(&p.id)
            } else {
                None
            };
            let st = match (selected_node_id, &runtime) {
                (Some(d), Some(n)) => if d.same(n) {
                    SelectorState::InSync
                } else {
                    SelectorState::NotApplied
                },
                (_, None) => if runtime_state == RuntimeState::Ready {
                    SelectorState::Unknown
                } else {
                    SelectorState::SavedOnly
                },
                _ => SelectorState::SavedOnly,
            };
            let item = SelectorSnapshot {
                pool_id: p.id.0.exact_clone(),
                desired_node_id: match selected_node_id {
                    Some(d) => Some(d.0.exact_clone()),
                    None => None,
                },
                runtime_node_id: match runtime {
                    Some(n) => Some(n.0),
                    None => None,
                },
                state: st,
            };
            let ghost before = r.deep_view();
            r.push(item);
            proof {
                assert(r.deep_view() =~= before.push(item.deep_view()));
            }
        }
        i = i + 1;
    }
    proof {
        assert(pools.take(state.pools.len() as int) =~= pools);
    }
    r
}



/// A provider as the editor lists it.
#[derive(Clone, Debug, PartialEq, Eq)]
pub struct ProviderSnapshot {
    pub id: String,
    pub subscription_id: String,
    pub name: String,
}

/// A node as the editor lists it.
#[derive(Clone, Debug, PartialEq, Eq)]
pub struct NodeSnapshot {
    pub id: String,
    pub provider_id: String,
    pub name: String,
    pub protocol: crate::routing_dto::ProxyProtocolDto,
}

/// A pool as the editor lists it, with the nodes it currently resolves to.
#[derive(Clone, Debug, PartialEq, Eq)]
pub struct PoolSnapshot {
    pub id: String,
    pub name: String,
    pub kind: crate::routing_dto::PoolKindDto,
    pub enabled: bool,
    pub sources: Vec<PoolSourceDto>,
    pub selection: SelectionDto,
    pub resolved_node_ids: Vec<String>,
}

/// Everything the routing editor shows.
#[derive(Clone, Debug, PartialEq, Eq)]
pub struct ProxyRoutingSnapshot {
    pub revision: u64,
    pub desired_generation: u64,
    pub applied_generation: Option<u64>,
    pub runtime_state: RuntimeState,
    pub apply_state: ApplyState,
    pub active_subscription_id: Option<String>,
    pub applied_subscription_id: Option<String>,
    pub providers: Vec<ProviderSnapshot>,
    pub nodes: Vec<NodeSnapshot>,
    pub default_target: DefaultTargetDto,
    pub pools: Vec<PoolSnapshot>,
    pub routes: Vec<crate::routing_dto::RouteSnapshot>,
    pub selectors: Vec<SelectorSnapshot>,
}

/// The answer to a read of the editor's view.
#[derive(Clone, Debug, PartialEq, Eq)]
pub enum SnapshotResult {
    Success { snapshot: Box<ProxyRoutingSnapshot> },
    Error { error: QueryError },
}

/// The answer to an edit.
#[derive(Clone, Debug, PartialEq, Eq)]
pub enum MutationResult {
    Success { outcome: MutationOutcome, snapshot: Box<ProxyRoutingSnapshot> },
    Error { error: MutationError, revision: Option<u64> },
}

/// The desired subscription and generation of the last explicit apply.
#[derive(Clone, Debug, PartialEq, Eq)]
pub struct ApplyTuple {
    pub active_subscription_id: Option<String>,
    pub desired_generation: u64,
}

/// The runtime state the observed lifecycle stands for.
pub open spec fn observed_runtime_state(l: crate::observability::ObservedSidecarLifecycle) -> RuntimeState {
    match l {
        crate::observability::ObservedSidecarLifecycle::Ready => RuntimeState::Ready,
        crate::observability::ObservedSidecarLifecycle::RecoveryRequired => RuntimeState::RecoveryRequired,
        _ => RuntimeState::Stopped,
    }
}

/// The apply attempt in progress is for the desired tuple.
pub open spec fn attempt_is_current(
    tuple: Option<(Option<Seq<char>>, u64)>,
    s: AppStateView,
) -> bool {
    tuple == Some((s.active_subscription_id, s.active_configuration_generation))
}

/// Builds the editor's snapshot of `state` at `revision` from what the
/// runtime reports: its observation, the last definite routing-apply failure,
/// the runtime nodes of the selectors, and the tuple of the last apply.
#[verifier::rlimit(40)]
pub fn build_snapshot(
    state: &AppState,
    revision: u64,
    observation: &RuntimeObservationSnapshot,
    apply_tuple: &Option<ApplyTuple>,
    routing_terminal: &Option<RoutingApplyTerminal>,
    runtime_nodes: &SelectorRuntimeNodes,
) -> (r: ProxyRoutingSnapshot)
    requires
        forall|k: int| 0 <= k < state@.routes.len() ==> !((#[trigger] state@.routes[k]).target is Unconfigured),
    ensures
        r.revision == revision,
        r.desired_generation == state.active_configuration_generation,
        r.applied_generation == observation.applied_configuration_generation,
        r.active_subscription_id.deep_view() == state@.active_subscription_id,
        r.applied_subscription_id.deep_view() == observation.applied_subscription_id.deep_view(),
        ({
            let current = attempt_is_current(
                match apply_tuple {
                    Some(t) => Some((t.active_subscription_id.deep_view(), t.desired_generation)),
                    None => None,
                },
                state@,
            );
            let canon = canonical_state(
                observation.subscription_switch.deep_view(),
                observation.applied_configuration_generation,
                observed_runtime_state(observation.sidecar_lifecycle),
                state@.active_subscription_id,
                state.active_configuration_generation,
                observation.applied_subscription_id.deep_view(),
                current,
                match routing_terminal {
                    Some(t) => Some(t.deep_view()),
                    None => None,
                },
            );
            r.runtime_state == canon.0 && r.apply_state.deep_view() == canon.1
                && r.selectors.deep_view() == selectors_of(
                state@.pools,
                runtime_nodes.view_map(),
                canon.0,
            )
        }),
        r.providers.len() == state.providers.len(),
        forall|k: int|
            0 <= k < state.providers.len() ==> (#[trigger] r.providers@[k]).id@ == state@.providers[k].id
                && r.providers@[k].subscription_id@ == state@.providers[k].subscription_id
                && r.providers@[k].name@ == state@.providers[k].name,
        r.nodes.len() == state.nodes.len(),
        forall|k: int|
            0 <= k < state.nodes.len() ==> (#[trigger] r.nodes@[k]).id@ == state@.nodes[k].id
                && r.nodes@[k].provider_id@ == state@.nodes[k].provider_id && r.nodes@[k].name@
                == state@.nodes[k].name && r.nodes@[k].protocol.deep_view() == state@.nodes[k].protocol,
        r.default_target.deep_view() == state@.default_target,
        r.pools.len() == state.pools.len(),
        forall|k: int|
            0 <= k < state.pools.len() ==> (#[trigger] r.pools@[k]).id@ == state@.pools[k].id
                && r.pools@[k].name@ == state@.pools[k].name && r.pools@[k].kind.deep_view()
                == state@.pools[k].kind && r.pools@[k].enabled == state@.pools[k].enabled
                && r.pools@[k].sources.deep_view() == state@.pools[k].sources
                && r.pools@[k].selection.deep_view() == state@.pools[k].selection
                && r.pools@[k].resolved_node_ids.deep_view() == crate::validation::members_of(
                state@.nodes,
                state@.pools[k],
            ),
        r.routes.len() == state.routes.len(),
        forall|k: int|
            0 <= k < state.routes.len() ==> (#[trigger] r.routes@[k]).id@ == state@.routes[k].id
                && r.routes@[k].name@ == state@.routes[k].name && r.routes@[k].enabled
                == state@.routes[k].enabled && r.routes@[k].priority == state@.routes[k].priority
                && r.routes@[k].matcher.deep_view() == state@.routes[k].matcher
                && r.routes@[k].target.deep_view() == state@.routes[k].target,
{
    let observed = match observation.sidecar_lifecycle {
        crate::observability::ObservedSidecarLifecycle::Ready => RuntimeState::Ready,
        crate::observability::ObservedSidecarLifecycle::RecoveryRequired => RuntimeState::RecoveryRequired,
        _ => RuntimeState::Stopped,
    };
    let desired: Option<String> = match &state.active_subscription_id {
        Some(id) => Some(id.0.exact_clone()),
        None => None,
    };
    let current = match apply_tuple {
        Some(t) => opt_text_eq(&t.active_subscription_id, &desired) && t.desired_generation
            == state.active_configuration_generation,
        None => false,
    };
    let terminal: Option<&RoutingApplyTerminal> = match routing_terminal {
        Some(t) => Some(t),
        None => None,
    };
    let (runtime_state, apply_state) = canonical_runtime_apply_state(
        observation,
        observed,
        state,
        &observation.applied_subscription_id,
        current,
        terminal,
    );
    let mut providers: Vec<ProviderSnapshot> = Vec::new();
    let mut i: usize = 0;
    while i < state.providers.len()
        invariant
            i <= state.providers.len(),
            providers.len() == i,
            forall|k: int|
                0 <= k < i ==> (#[trigger] providers@[k]).id@ == state@.providers[k].id
                    && providers@[k].subscription_id@ == state@.providers[k].subscription_id
                    && providers@[k].name@ == state@.providers[k].name,
        decreases state.providers.len() - i,
    {
        let v = &state.providers[i];
        providers.push(
            ProviderSnapshot {
                id: v.id.0.exact_clone(),
                subscription_id: v.subscription_id.0.exact_clone(),
                name: v.name.exact_clone(),
            },
        );
        i = i + 1;
    }
    let mut nodes: Vec<NodeSnapshot> = Vec::new();
    let mut i: usize = 0;
    while i < state.nodes.len()
        invariant
            i <= state.nodes.len(),
            nodes.len() == i,
            forall|k: int|
                0 <= k < i ==> (#[trigger] nodes@[k]).id@ == state@.nodes[k].id
                    && nodes@[k].provider_id@ == state@.nodes[k].provider_id && nodes@[k].name@
                    == state@.nodes[k].name && nodes@[k].protocol.deep_view() == state@.nodes[k].protocol,
        decreases state.nodes.len() - i,
    {
        let v = &state.nodes[i];
        nodes.push(
            NodeSnapshot {
                id: v.id.0.exact_clone(),
                provider_id: v.provider_id.0.exact_clone(),
                name: v.name.exact_clone(),
                protocol: crate::routing_dto::protocol_to_dto(v.protocol),
            },
        );
        i = i + 1;
    }
    let mut pools: Vec<PoolSnapshot> = Vec::new();
    let mut i: usize = 0;
    while i < state.pools.len()
        invariant
            i <= state.pools.len(),
            pools.len() == i,
            forall|k: int|
                0 <= k < i ==> (#[trigger] pools@[k]).id@ == state@.pools[k].id && pools@[k].name@
                    == state@.pools[k].name && pools@[k].kind.deep_view() == state@.pools[k].kind
                    && pools@[k].enabled == state@.pools[k].enabled && pools@[k].sources.deep_view()
                    == state@.pools[k].sources && pools@[k].selection.deep_view()
                    == state@.pools[k].selection && pools@[k].resolved_node_ids.deep_view()
                    == crate::validation::members_of(state@.nodes, state@.pools[k]),
        decreases state.pools.len() - i,
    {
        let v = &state.pools[i];
        let members = state.resolve_pool_members(v);
        let mut ids: Vec<String> = Vec::new();
        let mut j: usize = 0;
        while j < members.len()
            invariant
                j <= members.len(),
                ids.len() == j,
                forall|k: int| 0 <= k < j ==> #[trigger] ids.deep_view()[k] == members.deep_view()[k],
            decreases members.len() - j,
        {
            let item = members[j].0.exact_clone();
            let ghost before = ids.deep_view();
            ids.push(item);
            proof {
                assert(ids.deep_view() =~= before.push(item.deep_view()));
            }
            j = j + 1;
        }
        proof {
            assert(ids.deep_view() =~= members.deep_view());
        }
        pools.push(
            PoolSnapshot {
                id: v.id.0.exact_clone(),
                name: v.name.exact_clone(),
                kind: crate::routing_dto::pool_kind_to_dto(v.kind),
                enabled: v.enabled,
                sources: crate::routing_dto::pool_sources_to_dto(&v.sources),
                selection: crate::routing_dto::selection_to_dto(&v.selection),
                resolved_node_ids: ids,
            },
        );
        i = i + 1;
    }
    let mut routes: Vec<crate::routing_dto::RouteSnapshot> = Vec::new();
    let mut i: usize = 0;
    while i < state.routes.len()
        invariant
            i <= state.routes.len(),
            routes.len() == i,
            forall|k: int| 0 <= k < state@.routes.len() ==> !((#[trigger] state@.routes[k]).target is Unconfigured),
            forall|k: int|
                0 <= k < i ==> (#[trigger] routes@[k]).id@ == state@.routes[k].id && routes@[k].name@
                    == state@.routes[k].name && routes@[k].enabled == state@.routes[k].enabled
                    && routes@[k].priority == state@.routes[k].priority
                    && routes@[k].matcher.deep_view() == state@.routes[k].matcher
                    && routes@[k].target.deep_view() == state@.routes[k].target,
        decreases state.routes.len() - i,
    {
        proof {
            assert(!(state@.routes[i as int].target is Unconfigured));
        }
        routes.push(crate::routing_dto::route_snapshot(&state.routes[i]));
        i = i + 1;
    }
    let selectors = selectors(state, runtime_nodes, runtime_state);
    ProxyRoutingSnapshot {
        revision,
        desired_generation: state.active_configuration_generation,
        applied_generation: observation.applied_configuration_generation,
        runtime_state,
        apply_state,
        active_subscription_id: desired,
        applied_subscription_id: observation.applied_subscription_id.exact_clone(),
        providers,
        nodes,
        default_target: crate::routing_dto::default_target_to_dto(&state.default_target),
        pools,
        routes,
        selectors,
    }
}


// ---------------------------------------------------------------------------
// The editor's transaction
// ---------------------------------------------------------------------------

/// A manual selection that an edit saved.
#[derive(Clone, Debug, PartialEq, Eq)]
pub struct ManualChoice {
    pub pool_id: String,
    pub node_id: String,
}

/// What an edit comes to once the loaded state is known.
pub enum MutationPlan {
    /// The edit is refused with this answer.
    Answer(MutationResult),
    /// The edit changes nothing the editor shows; nothing is saved.
    Unchanged { outcome: MutationOutcome, state: AppState, revision: u64, manual: Option<ManualChoice> },
    /// The candidate state is valid and must be saved before it counts.
    Save { outcome: MutationOutcome, candidate: AppState, current: u64, manual: Option<ManualChoice> },
    /// The desired configuration is to be applied by the runtime.
    Apply { active_subscription_id: String, desired_generation: u64, revision: u64 },
}

/// What remains to be done for an edit after the state transaction.
pub enum MutationStep {
    /// The edit is answered.
    Answered(MutationResult),
    /// Report `outcome` with a snapshot of `state` at `revision`.
    Report { outcome: MutationOutcome, state: AppState, revision: u64 },
    /// Hand the saved manual choice to the runtime, then settle the outcome.
    ReconcileSelection { pool_id: String, node_id: String, state: AppState, revision: u64 },
    /// Ask the runtime to apply the desired configuration.
    Apply { active_subscription_id: String, desired_generation: u64, revision: u64 },
}

/// The last revision the editor can name, if any was observed.
pub open spec fn known_revision(r: RevisionStateView) -> Option<u64> {
    if r.revision > 0 {
        Some(r.revision)
    } else {
        None
    }
}

/// The manual choice an edit makes, if it is one.
pub open spec fn manual_choice_of(m: ProxyRoutingMutationView) -> Option<(Seq<char>, Seq<char>)> {
    match m {
        ProxyRoutingMutationView::SetManualSelection { pool_id, node_id } => Some((pool_id, node_id)),
        _ => None,
    }
}

/// The candidate an edit that changed `next` saves: structural edits (all
/// but a manual choice) advance the desired generation.
pub open spec fn candidate_of(next: AppStateView, m: ProxyRoutingMutationView) -> AppStateView {
    if m is SetManualSelection {
        next
    } else {
        AppStateView {
            active_configuration_generation: (next.active_configuration_generation + 1) as u64,
            ..next
        }
    }
}

/// Why an edit that changed the state cannot be saved, if it cannot.
pub open spec fn save_refusal(
    next: AppStateView,
    m: ProxyRoutingMutationView,
    current: u64,
) -> Option<MutationError> {
    if !(m is SetManualSelection) && next.active_configuration_generation + 1 > MAX_SAFE_INTEGER {
        Some(MutationError::StateUnavailable)
    } else if current == MAX_SAFE_INTEGER {
        Some(MutationError::StateUnavailable)
    } else {
        match crate::validation::validation_error(candidate_of(next, m)) {
            Some(e) => Some(state_validation_mutation_error(e)),
            None => None,
        }
    }
}

impl MutationResult {
    /// The refusal `error` at `revision`, if this is one.
    pub open spec fn is_refusal(&self, error: MutationError, revision: Option<u64>) -> bool {
        self matches MutationResult::Error { error: e, revision: r } && e == error && r == revision
    }
}

/// What deciding an edit against revision `expected` does, from revision
/// state `before` to `after`, with the loaded state and the fresh bytes it
/// was given: `r` is the plan that [`ProxyRoutingManager::plan_mutation`]
/// gives.
pub open spec fn planned(
    before: RevisionStateView,
    after: RevisionStateView,
    expected: u64,
    mutation: ProxyRoutingMutation,
    loaded: Result<AppState, crate::storage::StateStoreError>,
    fresh: Option<Vec<u8>>,
    r: MutationPlan,
) -> bool {
    match loaded {
        Err(_) => after == before && (r matches MutationPlan::Answer(a)
            && a.is_refusal(MutationError::StateUnavailable, known_revision(before))),
        Ok(state) => match observed(before, cas_of(state@)) {
            Err(e) => after == before && (r matches MutationPlan::Answer(a)
                && a.is_refusal(map_query_error_spec(e), known_revision(before))),
            Ok(next_rev) => after == next_rev && ({
                let current = next_rev.revision;
                if current != expected {
                    r matches MutationPlan::Answer(a) && a.is_refusal(MutationError::Conflict, Some(current))
                } else if mutation is ApplyConfiguration {
                    match state@.active_subscription_id {
                        None => r matches MutationPlan::Answer(a) && a.is_refusal(
                            MutationError::ValidationFailed,
                            Some(current),
                        ),
                        Some(active) => r matches MutationPlan::Apply {
                            active_subscription_id: id,
                            desired_generation: g,
                            revision: rv,
                        } && id@ == active && g == state.active_configuration_generation && rv == current,
                    }
                } else {
                    match mutation_result(state@, mutation.deep_view(), fresh.deep_view()) {
                        Err(e) => r matches MutationPlan::Answer(a) && a.is_refusal(e, Some(current)),
                        Ok((next, outcome)) => if cas_of(next) == cas_of(state@) {
                            r matches MutationPlan::Unchanged { outcome: o, state: st, revision: rv, manual: mc }
                                && o.deep_view() == outcome && st@ == next && rv == current
                                && manual_matches(mc, mutation.deep_view())
                        } else {
                            match save_refusal(next, mutation.deep_view(), current) {
                                Some(e) => r matches MutationPlan::Answer(a) && a.is_refusal(e, Some(current)),
                                None => r matches MutationPlan::Save { outcome: o, candidate: c, current: cur, manual: mc }
                                    && o.deep_view() == outcome && c@ == candidate_of(next, mutation.deep_view())
                                    && cur == current && manual_matches(mc, mutation.deep_view()),
                            }
                        },
                    }
                }
            }),
        },
    }
}

/// What finishing a save does, from revision state `before` to `after`,
/// once the store answered `saved` for `candidate`: `r` is the step that
/// [`ProxyRoutingManager::finish_save`] gives.
pub open spec fn finished(
    before: RevisionStateView,
    after: RevisionStateView,
    outcome: MutationOutcome,
    candidate: AppState,
    current: u64,
    manual: Option<ManualChoice>,
    saved: Result<(), crate::storage::StateStoreError>,
    r: MutationStep,
) -> bool {
    match saved {
        Err(_) => after == before && (r matches MutationStep::Answered(a)
            && a.is_refusal(MutationError::SaveFailed, Some(current))),
        Ok(()) => match observed(before, cas_of(candidate@)) {
            Err(_) => after == before && (r matches MutationStep::Answered(a)
                && a.is_refusal(MutationError::StateUnavailable, Some(current))),
            Ok(next_rev) => after == next_rev && match manual {
                Some(choice) => r matches MutationStep::ReconcileSelection { pool_id: p, node_id: n, state: st, revision: rv }
                    && p@ == choice.pool_id@ && n@ == choice.node_id@ && st@ == candidate@ && rv == next_rev.revision,
                None => r matches MutationStep::Report { outcome: o, state: st, revision: rv }
                    && o.deep_view() == outcome.deep_view() && st@ == candidate@ && rv == next_rev.revision,
            },
        },
    }
}

/// What an edit does after it was planned as `plan` at revision state
/// `mid`: a refusal, an unchanged edit and an apply are answered as planned
/// without touching the store; a candidate is handed to the store and its
/// answer finishes the edit.
pub open spec fn mutation_continued(
    mid: RevisionStateView,
    after: RevisionStateView,
    saves_before: Seq<(AppStateView, Result<(), crate::storage::StateStoreError>)>,
    saves_after: Seq<(AppStateView, Result<(), crate::storage::StateStoreError>)>,
    plan: MutationPlan,
    r: MutationStep,
) -> bool {
    match plan {
        MutationPlan::Save { outcome, candidate, current, manual } => exists|
            saved: Result<(), crate::storage::StateStoreError>,
        |
            #![trigger finished(mid, after, outcome, candidate, current, manual, saved, r)]
            saves_after == saves_before.push((candidate@, saved)) && finished(
                mid,
                after,
                outcome,
                candidate,
                current,
                manual,
                saved,
                r,
            ),
        MutationPlan::Answer(a) => after == mid && saves_after == saves_before && r == MutationStep::Answered(a),
        MutationPlan::Unchanged { outcome, state, revision, manual } => after == mid && saves_after == saves_before
            && r == match manual {
            Some(choice) => MutationStep::ReconcileSelection {
                pool_id: choice.pool_id,
                node_id: choice.node_id,
                state,
                revision,
            },
            None => MutationStep::Report { outcome, state, revision },
        },
        MutationPlan::Apply { active_subscription_id, desired_generation, revision } => after == mid && saves_after
            == saves_before && r == (MutationStep::Apply { active_subscription_id, desired_generation, revision }),
    }
}

/// What an edit does to the editor's revision and the desired generation,
/// for every loaded state, fresh bytes and store answer. An edit against a
/// stale revision is refused as a conflict at the current revision and saves
/// nothing. An edit that leaves what the editor shows unchanged saves nothing
/// and keeps the revision. An edit that changes it, once saved and reported,
/// has advanced the revision by one; what was saved advances the desired
/// generation by one, unless the edit is a manual choice, which keeps it.
pub proof fn law_mutation_revision_and_generation(
    before: RevisionStateView,
    mid: RevisionStateView,
    after: RevisionStateView,
    expected: u64,
    mutation: ProxyRoutingMutation,
    state: AppState,
    fresh: Option<Vec<u8>>,
    plan: MutationPlan,
    saves_before: Seq<(AppStateView, Result<(), crate::storage::StateStoreError>)>,
    saves_after: Seq<(AppStateView, Result<(), crate::storage::StateStoreError>)>,
    r: MutationStep,
)
    requires
        !(mutation is ApplyConfiguration),
        observed(before, cas_of(state@)) is Ok,
        planned(before, mid, expected, mutation, Ok(state), fresh, plan),
        mutation_continued(mid, after, saves_before, saves_after, plan, r),
    ensures
        mid.revision != expected ==> saves_after == saves_before && after == mid && (r matches MutationStep::Answered(
            a,
        ) && a.is_refusal(MutationError::Conflict, Some(mid.revision))),
        mid.revision == expected && (mutation_result(state@, mutation.deep_view(), fresh.deep_view()) matches Ok(
            (next, _),
        ) && cas_of(next) == cas_of(state@)) ==> saves_after == saves_before && after == mid && !(
        r is Answered),
        (saves_after.len() == saves_before.len() + 1 && saves_after.last().1 is Ok && !(r is Answered)) ==> {
            &&& after.revision == mid.revision + 1
            &&& saves_after.last().0.active_configuration_generation == (if mutation is SetManualSelection {
                state.active_configuration_generation as int
            } else {
                state.active_configuration_generation + 1
            })
        },
{
    let m = mutation.deep_view();
    assert(!(m is ApplyConfiguration));
    law_edit_generation(state@, m, fresh.deep_view());
    if let MutationPlan::Save { outcome, candidate, current, manual } = plan {
        let saved = choose|saved: Result<(), crate::storage::StateStoreError>|
            #![trigger finished(mid, after, outcome, candidate, current, manual, saved, r)]
            saves_after == saves_before.push((candidate@, saved)) && finished(
                mid,
                after,
                outcome,
                candidate,
                current,
                manual,
                saved,
                r,
            );
        assert(saves_after.last() == (candidate@, saved));
        if saved is Ok && !(r is Answered) {
            let next = mutation_result(state@, m, fresh.deep_view())->Ok_0.0;
            assert(mid.material == Some(cas_of(state@)));
            assert(candidate@ == candidate_of(next, m));
            assert(cas_of(candidate@) != cas_of(state@)) by {
                if !(m is SetManualSelection) {
                    assert(cas_of(candidate@).desired_generation != cas_of(state@).desired_generation);
                }
            }
        }
    }
}

/// Holds the editor's revision, the state gate and the store.
pub struct ProxyRoutingManager<S> {
    store: S,
    gate: crate::state_access::StateAccessGate,
    revision: RevisionState,
    apply_tuple: Option<ApplyTuple>,
    /// Every state handed to the store, with the store's answer, in order.
    saves: Ghost<Seq<(AppStateView, Result<(), crate::storage::StateStoreError>)>>,
}

impl<S: crate::storage::StateStore> ProxyRoutingManager<S> {
    /// The editor's revision state.
    pub closed spec fn revision_view(&self) -> RevisionStateView {
        self.revision@
    }

    /// The state gate is held.
    pub closed spec fn gate_held(&self) -> bool {
        self.gate.is_held()
    }

    /// The states this manager handed to the store, each with the store's
    /// answer, in the order of the saves.
    pub closed spec fn saves(&self) -> Seq<(AppStateView, Result<(), crate::storage::StateStoreError>)> {
        self.saves@
    }

    /// Hands `state` to the store and records it with the store's answer.
    fn save_to_store(&mut self, state: &AppState) -> (r: Result<(), crate::storage::StateStoreError>)
        ensures
            final(self).revision_view() == old(self).revision_view(),
            final(self).gate_held() == old(self).gate_held(),
            final(self).saves() == old(self).saves().push((state@, r)),
    {
        let r = self.store.save(state);
        self.saves = Ghost(self.saves@.push((state@, r)));
        r
    }

    /// A manager over `store`; nothing observed yet.
    pub fn new(store: S) -> (r: Self)
        ensures
            r.revision_view().revision == 0,
            r.revision_view().material is None,
            !r.gate_held(),
            r.saves().len() == 0,
    {
        ProxyRoutingManager {
            store,
            gate: crate::state_access::StateAccessGate::new(),
            revision: RevisionState::new(),
            apply_tuple: None,
            saves: Ghost(Seq::empty()),
        }
    }

    fn known(&self) -> (r: Option<u64>)
        ensures
            r == known_revision(self.revision@),
    {
        if self.revision.revision > 0 {
            Some(self.revision.revision)
        } else {
            None
        }
    }

    /// Decides an edit of `loaded` made against revision `expected`.
    ///
    /// A failed load or a failed observation is refused with the last known
    /// revision; a stale revision is a conflict; an edit that changes nothing
    /// the editor shows is not saved; any other edit yields the candidate to
    /// save (structural edits advance the desired generation) unless it is
    /// invalid.
    #[verifier::rlimit(60)]
    pub fn plan_mutation(
        &mut self,
        expected: u64,
        mutation: &ProxyRoutingMutation,
        loaded: Result<AppState, crate::storage::StateStoreError>,
        fresh: &Option<Vec<u8>>,
    ) -> (r: MutationPlan)
        ensures
            final(self).gate_held() == old(self).gate_held(),
            final(self).saves() == old(self).saves(),
            planned(old(self).revision_view(), final(self).revision_view(), expected, *mutation, loaded, *fresh, r),
    {
        let state = match loaded {
            Ok(state) => state,
            Err(_) => {
                return MutationPlan::Answer(
                    MutationResult::Error { error: MutationError::StateUnavailable, revision: self.known() },
                );
            },
        };
        let known = self.known();
        let current = match self.revision.observe(CasMaterial::from_state(&state)) {
            Ok(v) => v,
            Err(e) => {
                return MutationPlan::Answer(MutationResult::Error { error: map_query_error(e), revision: known });
            },
        };
        if current != expected {
            return MutationPlan::Answer(MutationResult::Error { error: MutationError::Conflict, revision: Some(current) });
        }
        if let ProxyRoutingMutation::ApplyConfiguration = mutation {
            return match &state.active_subscription_id {
                None => MutationPlan::Answer(
                    MutationResult::Error { error: MutationError::ValidationFailed, revision: Some(current) },
                ),
                Some(active) => MutationPlan::Apply {
                    active_subscription_id: active.0.exact_clone(),
                    desired_generation: state.active_configuration_generation,
                    revision: current,
                },
            };
        }
        let manual: Option<ManualChoice> = match mutation {
            ProxyRoutingMutation::SetManualSelection { pool_id, node_id } => Some(
                ManualChoice { pool_id: pool_id.exact_clone(), node_id: node_id.exact_clone() },
            ),
            _ => None,
        };
        let before = CasMaterial::from_state(&state);
        let mut next = state;
        let outcome = match apply_mutation_with(&mut next, mutation, fresh) {
            Ok(v) => v,
            Err(e) => {
                return MutationPlan::Answer(MutationResult::Error { error: e, revision: Some(current) });
            },
        };
        if CasMaterial::from_state(&next).same(&before) {
            return MutationPlan::Unchanged { outcome, state: next, revision: current, manual };
        }
        if manual.is_none() {
            if next.active_configuration_generation >= MAX_SAFE_INTEGER {
                return MutationPlan::Answer(
                    MutationResult::Error { error: MutationError::StateUnavailable, revision: Some(current) },
                );
            }
            next.active_configuration_generation = next.active_configuration_generation + 1;
        }
        if current == MAX_SAFE_INTEGER {
            return MutationPlan::Answer(
                MutationResult::Error { error: MutationError::StateUnavailable, revision: Some(current) },
            );
        }
        if let Err(e) = next.validate() {
            return MutationPlan::Answer(
                MutationResult::Error { error: map_state_validation(e), revision: Some(current) },
            );
        }
        MutationPlan::Save { outcome, candidate: next, current, manual }
    }

    /// Finishes a save: a failed save is refused; a saved candidate becomes
    /// the next revision, and a structural edit forgets the last apply
    /// attempt.
    pub fn finish_save(
        &mut self,
        outcome: MutationOutcome,
        candidate: AppState,
        current: u64,
        manual: Option<ManualChoice>,
        saved: Result<(), crate::storage::StateStoreError>,
    ) -> (r: MutationStep)
        ensures
            final(self).gate_held() == old(self).gate_held(),
            final(self).saves() == old(self).saves(),
            finished(old(self).revision_view(), final(self).revision_view(), outcome, candidate, current, manual, saved, r),
    {
        if saved.is_err() {
            return MutationStep::Answered(MutationResult::Error { error: MutationError::SaveFailed, revision: Some(current) });
        }
        let revision = match self.revision.commit(CasMaterial::from_state(&candidate)) {
            Ok(v) => v,
            Err(e) => {
                return MutationStep::Answered(MutationResult::Error { error: e, revision: Some(current) });
            },
        };
        match manual {
            Some(choice) => MutationStep::ReconcileSelection {
                pool_id: choice.pool_id,
                node_id: choice.node_id,
                state: candidate,
                revision,
            },
            None => {
                self.apply_tuple = None;
                MutationStep::Report { outcome, state: candidate, revision }
            },
        }
    }

    /// Runs the state part of an edit: checks the expected revision, enters
    /// the state gate, loads, decides, saves, and releases the lock. What the
    /// store returns decides the outcome; see [`Self::plan_mutation`] and
    /// [`Self::finish_save`].
    pub fn mutate(&mut self, request: MutateProxyRoutingRequest) -> (r: MutationStep)
        ensures
            !final(self).gate_held() || old(self).gate_held(),
            !(1 <= request.expected_revision <= MAX_SAFE_INTEGER) ==> (r matches MutationStep::Answered(a)
                && a.is_refusal(MutationError::InvalidInput, known_revision(old(self).revision_view()))
                && final(self).revision_view() == old(self).revision_view()),
            (1 <= request.expected_revision <= MAX_SAFE_INTEGER && old(self).gate_held()) ==> (r matches MutationStep::Answered(a)
                && a.is_refusal(MutationError::Busy, known_revision(old(self).revision_view()))
                && final(self).revision_view() == old(self).revision_view()),
            !(1 <= request.expected_revision <= MAX_SAFE_INTEGER) || old(self).gate_held() ==> final(self).saves()
                == old(self).saves(),
            (1 <= request.expected_revision <= MAX_SAFE_INTEGER && !old(self).gate_held()) ==> exists|
                loaded: Result<AppState, crate::storage::StateStoreError>,
                fresh: Option<Vec<u8>>,
                mid: RevisionStateView,
                plan: MutationPlan,
            |
                #![trigger planned(old(self).revision_view(), mid, request.expected_revision, request.mutation, loaded, fresh, plan)]
                planned(old(self).revision_view(), mid, request.expected_revision, request.mutation, loaded, fresh, plan)
                    && mutation_continued(mid, final(self).revision_view(), old(self).saves(), final(self).saves(), plan, r),
            r matches MutationStep::Apply { revision: rv, .. } ==> rv == request.expected_revision,
    {
        let expected = request.expected_revision;
        if !(1 <= expected && expected <= MAX_SAFE_INTEGER) {
            return MutationStep::Answered(MutationResult::Error { error: MutationError::InvalidInput, revision: self.known() });
        }
        if let Err(e) = self.gate.try_lock() {
            return MutationStep::Answered(self.mutation_access_error(e));
        }
        let loaded = self.store.load();
        let fresh = match &request.mutation {
            ProxyRoutingMutation::CreateCustomPool { .. } | ProxyRoutingMutation::CreateRoute { .. } => random_bytes16(),
            _ => None,
        };
        let plan = self.plan_mutation(expected, &request.mutation, loaded, &fresh);
        let step = match plan {
            MutationPlan::Answer(a) => MutationStep::Answered(a),
            MutationPlan::Unchanged { outcome, state, revision, manual } => match manual {
                Some(choice) => MutationStep::ReconcileSelection {
                    pool_id: choice.pool_id,
                    node_id: choice.node_id,
                    state,
                    revision,
                },
                None => MutationStep::Report { outcome, state, revision },
            },
            MutationPlan::Save { outcome, candidate, current, manual } => {
                let saved = self.save_to_store(&candidate);
                self.finish_save(outcome, candidate, current, manual, saved)
            },
            MutationPlan::Apply { active_subscription_id, desired_generation, revision } => {
                MutationStep::Apply { active_subscription_id, desired_generation, revision }
            },
        };
        self.gate.release();
        step
    }

    /// Records that an explicit apply of this tuple is under way.
    pub fn begin_apply(&mut self, active_subscription_id: &String, desired_generation: u64)
        ensures
            final(self).revision_view() == old(self).revision_view(),
            final(self).gate_held() == old(self).gate_held(),
            final(self).apply_tuple_view() == Some((Some(active_subscription_id@), desired_generation)),
    {
        self.apply_tuple = Some(
            ApplyTuple {
                active_subscription_id: Some(active_subscription_id.exact_clone()),
                desired_generation,
            },
        );
    }

    /// The tuple of the last explicit apply, if one is current.
    pub closed spec fn apply_tuple_view(&self) -> Option<(Option<Seq<char>>, u64)> {
        match self.apply_tuple {
            Some(t) => Some((t.active_subscription_id.deep_view(), t.desired_generation)),
            None => None,
        }
    }

    /// The tuple of the last explicit apply.
    pub fn apply_tuple(&self) -> (r: Option<ApplyTuple>)
        ensures
            match r {
                Some(t) => self.apply_tuple_view() == Some((t.active_subscription_id.deep_view(), t.desired_generation)),
                None => self.apply_tuple_view() is None,
            },
    {
        match &self.apply_tuple {
            Some(t) => Some(
                ApplyTuple {
                    active_subscription_id: t.active_subscription_id.exact_clone(),
                    desired_generation: t.desired_generation,
                },
            ),
            None => None,
        }
    }

    /// Loads the state under the state lock and names its revision.
    pub fn load_observed(&mut self) -> (r: Result<(AppState, u64), QueryError>)
        ensures
            !final(self).gate_held() || old(self).gate_held(),
            old(self).gate_held() ==> r == Err::<(AppState, u64), QueryError>(QueryError::Busy)
                && final(self).revision_view() == old(self).revision_view(),
            r matches Ok((st, rv)) ==> observed(old(self).revision_view(), cas_of(st@)) == Ok::<
                RevisionStateView,
                QueryError,
            >(final(self).revision_view()) && rv == final(self).revision_view().revision,
            (!old(self).gate_held() && r is Err) ==> r == Err::<(AppState, u64), QueryError>(QueryError::StateUnavailable)
                && final(self).revision_view() == old(self).revision_view(),
    {
        if let Err(e) = self.gate.try_lock() {
            return Err(map_query_access(e));
        }
        let r = match self.store.load() {
            Err(_) => Err(QueryError::StateUnavailable),
            Ok(state) => match self.revision.observe(CasMaterial::from_state(&state)) {
                Ok(revision) => Ok((state, revision)),
                Err(e) => Err(e),
            },
        };
        self.gate.release();
        r
    }


    /// Settles a saved manual selection after the runtime answered: a reload
    /// that succeeds decides whether the choice was superseded; otherwise the
    /// committed state is the last one this edit can prove.
    pub fn finish_manual_selection(
        &mut self,
        pool_id: String,
        node_id: String,
        runtime_result: ManualSelectionRuntimeResult,
        committed_state: AppState,
        committed_revision: u64,
        readings: &RuntimeReadings,
    ) -> (r: MutationResult)
        ensures
            !final(self).gate_held() || old(self).gate_held(),
            ({
                let committed = settled_manual_outcome(pool_id@, node_id@, runtime_result@, committed_state@, false);
                ||| final(self).revision_view() == old(self).revision_view()
                    && reports_outcome(r, committed, committed_state@, committed_revision)
                ||| !old(self).gate_held() && exists|st: AppStateView| #![trigger cas_of(st)]
                    observed(old(self).revision_view(), cas_of(st)) == Ok::<RevisionStateView, QueryError>(
                        final(self).revision_view(),
                    ) && reports_outcome(
                        r,
                        settled_manual_outcome(pool_id@, node_id@, runtime_result@, st, true),
                        st,
                        final(self).revision_view().revision,
                    )
            }),
    {
        let (state, revision, proved) = match self.load_observed() {
            Ok((state, revision)) => (state, revision, true),
            Err(_) => (committed_state, committed_revision, false),
        };
        let outcome = settle_manual_outcome(pool_id, node_id, runtime_result, &state, proved);
        let tuple = self.apply_tuple();
        report(outcome, &state, revision, &tuple, readings)
    }

    /// Answers an explicit apply from the runtime's answer: an activation
    /// error refuses it at `revision`; otherwise the latest state is
    /// reported.
    pub fn finish_apply(
        &mut self,
        result: crate::managed_runtime::ActivationResult,
        revision: u64,
        readings: &RuntimeReadings,
    ) -> (r: MutationResult)
        ensures
            !final(self).gate_held() || old(self).gate_held(),
            match apply_outcome(result.deep_view()) {
                Err(e) => r.is_refusal(e, Some(revision)),
                Ok(o) => r matches MutationResult::Success { outcome: out, .. } ==> out.deep_view() == o,
            },
    {
        let outcome = match apply_result_outcome(result) {
            Ok(o) => o,
            Err(e) => {
                return MutationResult::Error { error: e, revision: Some(revision) };
            },
        };
        match self.load_observed() {
            Ok((state, latest)) => {
                let tuple = self.apply_tuple();
                report(outcome, &state, latest, &tuple, readings)
            },
            Err(e) => MutationResult::Error { error: map_query_error(e), revision: self.known() },
        }
    }

    /// The editor's snapshot of the latest state.
    pub fn snapshot(&mut self, readings: &RuntimeReadings) -> (r: SnapshotResult)
        ensures
            !final(self).gate_held() || old(self).gate_held(),
            old(self).gate_held() ==> r == (SnapshotResult::Error { error: QueryError::Busy })
                && final(self).revision_view() == old(self).revision_view(),
            !old(self).gate_held() ==> match r {
                SnapshotResult::Success { snapshot } => exists|st: AppStateView| #![trigger cas_of(st)]
                    observed(old(self).revision_view(), cas_of(st)) == Ok::<RevisionStateView, QueryError>(
                        final(self).revision_view(),
                    ) && routes_configured(st) && snapshot.revision == final(self).revision_view().revision
                        && snapshot.desired_generation == st.active_configuration_generation
                        && snapshot.active_subscription_id.deep_view() == st.active_subscription_id
                        && snapshot.applied_generation == readings.observation.applied_configuration_generation,
                SnapshotResult::Error { error } => error == QueryError::StateUnavailable
                    && (final(self).revision_view() == old(self).revision_view() || exists|st: AppStateView| #![trigger cas_of(st)]
                    observed(old(self).revision_view(), cas_of(st)) == Ok::<RevisionStateView, QueryError>(
                        final(self).revision_view(),
                    ) && !routes_configured(st)),
            },
    {
        match self.load_observed() {
            Ok((state, revision)) => {
                if !routes_have_targets(&state) {
                    return SnapshotResult::Error { error: QueryError::StateUnavailable };
                }
                let tuple = self.apply_tuple();
                let snapshot = build_snapshot(
                    &state,
                    revision,
                    &readings.observation,
                    &tuple,
                    &readings.routing_terminal,
                    &readings.runtime_nodes,
                );
                SnapshotResult::Success { snapshot: Box::new(snapshot) }
            },
            Err(error) => SnapshotResult::Error { error },
        }
    }

    /// The last revision this manager can name.
    pub fn known_revision(&self) -> (r: Option<u64>)
        ensures
            r == known_revision(self.revision_view()),
    {
        self.known()
    }

    /// The answer when the edit could not be run at all: the runtime is
    /// unavailable, at the last revision this manager can name.
    pub fn execution_unavailable(&self) -> (r: MutationResult)
        ensures
            r.is_refusal(MutationError::RuntimeUnavailable, known_revision(self.revision_view())),
    {
        MutationResult::Error { error: MutationError::RuntimeUnavailable, revision: self.known() }
    }

    /// The answer when the state could not be entered: busy, or unavailable.
    pub fn mutation_access_error(&self, error: crate::state_access::StateAccessError) -> (r: MutationResult)
        ensures
            r.is_refusal(
                match error {
                    crate::state_access::StateAccessError::Busy => MutationError::Busy,
                    crate::state_access::StateAccessError::Unavailable => MutationError::StateUnavailable,
                },
                known_revision(self.revision_view()),
            ),
    {
        let error = match error {
            crate::state_access::StateAccessError::Busy => MutationError::Busy,
            crate::state_access::StateAccessError::Unavailable => MutationError::StateUnavailable,
        };
        MutationResult::Error { error, revision: self.known() }
    }
}


/// Every route of `state` has a configured target.
fn routes_have_targets(state: &AppState) -> (r: bool)
    ensures
        r == forall|k: int| 0 <= k < state@.routes.len() ==> !((#[trigger] state@.routes[k]).target is Unconfigured),
{
    let mut i: usize = 0;
    while i < state.routes.len()
        invariant
            i <= state.routes.len(),
            forall|k: int| 0 <= k < i ==> !((#[trigger] state@.routes[k]).target is Unconfigured),
        decreases state.routes.len() - i,
    {
        if let RouteTarget::Unconfigured = &state.routes[i].target {
            proof {
                assert(state@.routes[i as int].target is Unconfigured);
            }
            return false;
        }
        i = i + 1;
    }
    true
}

/// What the runtime reports that the editor's snapshot shows.
pub struct RuntimeReadings {
    pub observation: RuntimeObservationSnapshot,
    pub routing_terminal: Option<RoutingApplyTerminal>,
    pub runtime_nodes: SelectorRuntimeNodes,
}

/// The answer that reports `outcome` with the snapshot of `state` at
/// `revision`; a state with an unconfigured route cannot be shown and is
/// answered as unavailable.
pub fn report(
    outcome: MutationOutcome,
    state: &AppState,
    revision: u64,
    apply_tuple: &Option<ApplyTuple>,
    readings: &RuntimeReadings,
) -> (r: MutationResult)
    ensures
        (forall|k: int| 0 <= k < state@.routes.len() ==> !((#[trigger] state@.routes[k]).target is Unconfigured))
            ==> (r matches MutationResult::Success { outcome: o, snapshot: sn } && o.deep_view()
            == outcome.deep_view() && sn.revision == revision),
        !(forall|k: int| 0 <= k < state@.routes.len() ==> !((#[trigger] state@.routes[k]).target is Unconfigured))
            ==> r.is_refusal(MutationError::StateUnavailable, Some(revision)),
{
    if !routes_have_targets(state) {
        return MutationResult::Error { error: MutationError::StateUnavailable, revision: Some(revision) };
    }
    let snapshot = build_snapshot(
        state,
        revision,
        &readings.observation,
        apply_tuple,
        &readings.routing_terminal,
        &readings.runtime_nodes,
    );
    MutationResult::Success { outcome, snapshot: Box::new(snapshot) }
}

/// Every route of `st` has a configured target, so its snapshot can be shown.
pub open spec fn routes_configured(st: AppStateView) -> bool {
    forall|k: int| 0 <= k < st.routes.len() ==> !((#[trigger] st.routes[k]).target is Unconfigured)
}

/// `r` reports outcome `o` with the snapshot of `st` at `revision`, or, where
/// `st` has an unconfigured route, refuses as unavailable at `revision`.
pub open spec fn reports_outcome(r: MutationResult, o: MutationOutcomeView, st: AppStateView, revision: u64) -> bool {
    if routes_configured(st) {
        r matches MutationResult::Success { outcome, snapshot } && outcome.deep_view() == o
            && snapshot.revision == revision
    } else {
        r.is_refusal(MutationError::StateUnavailable, Some(revision))
    }
}

/// Whether a saved manual choice is the one an edit made.
pub open spec fn manual_matches(mc: Option<ManualChoice>, m: ProxyRoutingMutationView) -> bool {
    match manual_choice_of(m) {
        Some((p, n)) => mc matches Some(c) && c.pool_id@ == p && c.node_id@ == n,
        None => mc is None,
    }
}

/// The read failure mapped onto an edit failure.
pub open spec fn map_query_error_spec(e: QueryError) -> MutationError {
    match e {
        QueryError::Busy => MutationError::Busy,
        QueryError::StateUnavailable => MutationError::StateUnavailable,
        QueryError::RuntimeUnavailable => MutationError::RuntimeUnavailable,
    }
}

/// The outcome an explicit apply reports, from the runtime's answer.
pub open spec fn apply_outcome(result: crate::managed_runtime::ActivationResultView) -> Result<MutationOutcomeView, MutationError> {
    match result {
        crate::managed_runtime::ActivationResultView::Activated { operation_id, .. }
        | crate::managed_runtime::ActivationResultView::Reactivated { operation_id, .. }
        | crate::managed_runtime::ActivationResultView::AlreadyCurrent { operation_id, .. } => Ok(
            MutationOutcomeView::ApplyCompleted { operation_id },
        ),
        crate::managed_runtime::ActivationResultView::Pending { operation_id } => Ok(
            MutationOutcomeView::ApplyStarted { operation_id },
        ),
        crate::managed_runtime::ActivationResultView::Error { error, .. } => Err(activation_mutation_error(error)),
    }
}

/// The outcome of an explicit apply from the runtime's answer: finished
/// activations complete it, a pending one has started it, an activation
/// error refuses it.
pub fn apply_result_outcome(result: crate::managed_runtime::ActivationResult) -> (r: Result<MutationOutcome, MutationError>)
    ensures
        result_view(r) == apply_outcome(result.deep_view()),
{
    match result {
        crate::managed_runtime::ActivationResult::Activated { operation_id, .. }
        | crate::managed_runtime::ActivationResult::Reactivated { operation_id, .. }
        | crate::managed_runtime::ActivationResult::AlreadyCurrent { operation_id, .. } => Ok(
            MutationOutcome::ApplyCompleted { operation_id },
        ),
        crate::managed_runtime::ActivationResult::Pending { operation_id } => Ok(
            MutationOutcome::ApplyStarted { operation_id },
        ),
        crate::managed_runtime::ActivationResult::Error { error, .. } => Err(map_activation_error(error)),
    }
}

} // verus!
