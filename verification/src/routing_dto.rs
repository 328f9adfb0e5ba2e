//! Request and response values of the proxy routing editor, and their
//! conversion to and from the domain model.
//!
//! Each request value is viewed as the domain value it describes, before text
//! is trimmed; converting trims the free-text lists and keeps everything else.
use vstd::prelude::*;

use crate::domain::{
    ExactClone, NetworkProtocol, NodeFilter, NodeFilterView, NodeId, PoolId, PoolKind, PoolSource,
    PoolSourceView, ProviderId, ProxyProtocol, RoutePolicy, RouteTarget, RouteTargetView,
    SelectionPolicy, SelectionPolicyView, TrafficMatcher, TrafficMatcherView,
};
use crate::text::{trim, trim_seq};

verus! {

/// Outbound protocol as the editor names it.
#[derive(Clone, Copy, Debug, PartialEq, Eq, Hash, Structural)]
pub enum ProxyProtocolDto {
    Socks,
    Http,
    Shadowsocks,
    Vmess,
    Vless,
    Trojan,
    WireGuard,
    Hysteria,
    Hysteria2,
    Tuic,
    ShadowTls,
    Ssh,
    Naive,
    AnyTls,
    Snell,
}

impl DeepView for ProxyProtocolDto {
    type V = ProxyProtocol;

    open spec fn deep_view(&self) -> ProxyProtocol {
        match self {
            ProxyProtocolDto::Socks => ProxyProtocol::Socks,
            ProxyProtocolDto::Http => ProxyProtocol::Http,
            ProxyProtocolDto::Shadowsocks => ProxyProtocol::Shadowsocks,
            ProxyProtocolDto::Vmess => ProxyProtocol::Vmess,
            ProxyProtocolDto::Vless => ProxyProtocol::Vless,
            ProxyProtocolDto::Trojan => ProxyProtocol::Trojan,
            ProxyProtocolDto::WireGuard => ProxyProtocol::WireGuard,
            ProxyProtocolDto::Hysteria => ProxyProtocol::Hysteria,
            ProxyProtocolDto::Hysteria2 => ProxyProtocol::Hysteria2,
            ProxyProtocolDto::Tuic => ProxyProtocol::Tuic,
            ProxyProtocolDto::ShadowTls => ProxyProtocol::ShadowTls,
            ProxyProtocolDto::Ssh => ProxyProtocol::Ssh,
            ProxyProtocolDto::Naive => ProxyProtocol::Naive,
            ProxyProtocolDto::AnyTls => ProxyProtocol::AnyTls,
            ProxyProtocolDto::Snell => ProxyProtocol::Snell,
        }
    }
}

/// The domain protocol an editor protocol names.
pub fn protocol_from_dto(v: ProxyProtocolDto) -> (r: ProxyProtocol)
    ensures
        r == v.deep_view(),
{
    match v {
        ProxyProtocolDto::Socks => ProxyProtocol::Socks,
        ProxyProtocolDto::Http => ProxyProtocol::Http,
        ProxyProtocolDto::Shadowsocks => ProxyProtocol::Shadowsocks,
        ProxyProtocolDto::Vmess => ProxyProtocol::Vmess,
        ProxyProtocolDto::Vless => ProxyProtocol::Vless,
        ProxyProtocolDto::Trojan => ProxyProtocol::Trojan,
        ProxyProtocolDto::WireGuard => ProxyProtocol::WireGuard,
        ProxyProtocolDto::Hysteria => ProxyProtocol::Hysteria,
        ProxyProtocolDto::Hysteria2 => ProxyProtocol::Hysteria2,
        ProxyProtocolDto::Tuic => ProxyProtocol::Tuic,
        ProxyProtocolDto::ShadowTls => ProxyProtocol::ShadowTls,
        ProxyProtocolDto::Ssh => ProxyProtocol::Ssh,
        ProxyProtocolDto::Naive => ProxyProtocol::Naive,
        ProxyProtocolDto::AnyTls => ProxyProtocol::AnyTls,
        ProxyProtocolDto::Snell => ProxyProtocol::Snell,
    }
}

/// The editor's name for a domain protocol.
pub fn protocol_to_dto(v: ProxyProtocol) -> (r: ProxyProtocolDto)
    ensures
        r.deep_view() == v,
{
    match v {
        ProxyProtocol::Socks => ProxyProtocolDto::Socks,
        ProxyProtocol::Http => ProxyProtocolDto::Http,
        ProxyProtocol::Shadowsocks => ProxyProtocolDto::Shadowsocks,
        ProxyProtocol::Vmess => ProxyProtocolDto::Vmess,
        ProxyProtocol::Vless => ProxyProtocolDto::Vless,
        ProxyProtocol::Trojan => ProxyProtocolDto::Trojan,
        ProxyProtocol::WireGuard => ProxyProtocolDto::WireGuard,
        ProxyProtocol::Hysteria => ProxyProtocolDto::Hysteria,
        ProxyProtocol::Hysteria2 => ProxyProtocolDto::Hysteria2,
        ProxyProtocol::Tuic => ProxyProtocolDto::Tuic,
        ProxyProtocol::ShadowTls => ProxyProtocolDto::ShadowTls,
        ProxyProtocol::Ssh => ProxyProtocolDto::Ssh,
        ProxyProtocol::Naive => ProxyProtocolDto::Naive,
        ProxyProtocol::AnyTls => ProxyProtocolDto::AnyTls,
        ProxyProtocol::Snell => ProxyProtocolDto::Snell,
    }
}

/// Transport protocol of a matcher as the editor names it.
#[derive(Clone, Copy, Debug, PartialEq, Eq, Hash, Structural)]
pub enum NetworkProtocolDto {
    Tcp,
    Udp,
}

impl DeepView for NetworkProtocolDto {
    type V = NetworkProtocol;

    open spec fn deep_view(&self) -> NetworkProtocol {
        match self {
            NetworkProtocolDto::Tcp => NetworkProtocol::Tcp,
            NetworkProtocolDto::Udp => NetworkProtocol::Udp,
        }
    }
}

/// Kind of a pool as the editor names it.
#[derive(Clone, Copy, Debug, PartialEq, Eq, Structural)]
pub enum PoolKindDto {
    ImplicitProvider,
    Custom,
}

impl DeepView for PoolKindDto {
    type V = PoolKind;

    open spec fn deep_view(&self) -> PoolKind {
        match self {
            PoolKindDto::ImplicitProvider => PoolKind::ImplicitProvider,
            PoolKindDto::Custom => PoolKind::Custom,
        }
    }
}

/// The editor's name for a pool kind.
pub fn pool_kind_to_dto(v: PoolKind) -> (r: PoolKindDto)
    ensures
        r.deep_view() == v,
{
    match v {
        PoolKind::ImplicitProvider => PoolKindDto::ImplicitProvider,
        PoolKind::Custom => PoolKindDto::Custom,
    }
}

/// Node filter of a pool source, as edited.
#[derive(Clone, Debug, PartialEq, Eq)]
pub struct NodeFilterDto {
    pub regions: Vec<String>,
    pub protocols: Vec<ProxyProtocolDto>,
    pub include_keywords: Vec<String>,
    pub exclude_keywords: Vec<String>,
    pub include_node_ids: Vec<String>,
    pub exclude_node_ids: Vec<String>,
}

impl DeepView for NodeFilterDto {
    type V = NodeFilterView;

    open spec fn deep_view(&self) -> NodeFilterView {
        NodeFilterView {
            regions: self.regions.deep_view(),
            protocols: self.protocols.deep_view(),
            include_keywords: self.include_keywords.deep_view(),
            exclude_keywords: self.exclude_keywords.deep_view(),
            include_node_ids: self.include_node_ids.deep_view(),
            exclude_node_ids: self.exclude_node_ids.deep_view(),
        }
    }
}

/// One source of a pool, as edited.
#[derive(Clone, Debug, PartialEq, Eq)]
pub struct PoolSourceDto {
    pub provider_id: String,
    pub filter: NodeFilterDto,
}

impl DeepView for PoolSourceDto {
    type V = PoolSourceView;

    open spec fn deep_view(&self) -> PoolSourceView {
        PoolSourceView { provider_id: self.provider_id@, filter: self.filter.deep_view() }
    }
}

/// Member selection of a pool, as edited.
#[derive(Clone, Debug, PartialEq, Eq)]
pub enum SelectionDto {
    Manual { selected_node_id: Option<String> },
    UrlTest { probe_url: String, interval_seconds: u64, tolerance_ms: u32 },
}

impl DeepView for SelectionDto {
    type V = SelectionPolicyView;

    open spec fn deep_view(&self) -> SelectionPolicyView {
        match self {
            SelectionDto::Manual { selected_node_id } => SelectionPolicyView::Manual {
                selected_node_id: selected_node_id.deep_view(),
            },
            SelectionDto::UrlTest { probe_url, interval_seconds, tolerance_ms } => {
                SelectionPolicyView::UrlTest {
                    probe_url: probe_url@,
                    interval_secs: *interval_seconds,
                    tolerance_ms: *tolerance_ms,
                }
            },
        }
    }
}

/// Traffic matcher of a route, as edited.
#[derive(Clone, Debug, PartialEq, Eq)]
pub enum MatcherDto {
    Domain(Vec<String>),
    DomainSuffix(Vec<String>),
    Application(Vec<String>),
    IpCidr(Vec<String>),
    Port(Vec<u16>),
    Protocol(Vec<NetworkProtocolDto>),
}

impl DeepView for MatcherDto {
    type V = TrafficMatcherView;

    open spec fn deep_view(&self) -> TrafficMatcherView {
        match self {
            MatcherDto::Domain(x) => TrafficMatcherView::Domain(x.deep_view()),
            MatcherDto::DomainSuffix(x) => TrafficMatcherView::DomainSuffix(x.deep_view()),
            MatcherDto::Application(x) => TrafficMatcherView::Application(x.deep_view()),
            MatcherDto::IpCidr(x) => TrafficMatcherView::IpCidr(x.deep_view()),
            MatcherDto::Port(x) => TrafficMatcherView::Port(x.deep_view()),
            MatcherDto::Protocol(x) => TrafficMatcherView::Protocol(x.deep_view()),
        }
    }
}

/// Target of unmatched traffic, as edited.
#[derive(Clone, Debug, PartialEq, Eq)]
pub enum DefaultTargetDto {
    FollowActiveSubscription,
    Pool { pool_id: String },
    Direct,
    Block,
}

impl DeepView for DefaultTargetDto {
    type V = RouteTargetView;

    open spec fn deep_view(&self) -> RouteTargetView {
        match self {
            DefaultTargetDto::FollowActiveSubscription => RouteTargetView::Unconfigured,
            DefaultTargetDto::Pool { pool_id } => RouteTargetView::Pool(pool_id@),
            DefaultTargetDto::Direct => RouteTargetView::Direct,
            DefaultTargetDto::Block => RouteTargetView::Block,
        }
    }
}

/// Target of a route, as edited.
#[derive(Clone, Debug, PartialEq, Eq)]
pub enum RouteTargetDto {
    Pool { pool_id: String },
    Direct,
    Block,
}

impl DeepView for RouteTargetDto {
    type V = RouteTargetView;

    open spec fn deep_view(&self) -> RouteTargetView {
        match self {
            RouteTargetDto::Pool { pool_id } => RouteTargetView::Pool(pool_id@),
            RouteTargetDto::Direct => RouteTargetView::Direct,
            RouteTargetDto::Block => RouteTargetView::Block,
        }
    }
}

// ---------------------------------------------------------------------------
// Editor values to domain values
// ---------------------------------------------------------------------------

/// Every text of the list, trimmed.
pub open spec fn trim_all(values: Seq<Seq<char>>) -> Seq<Seq<char>> {
    Seq::new(values.len(), |i: int| trim_seq(values[i]))
}

/// The domain filter an edited filter becomes: free-text lists trimmed.
pub open spec fn filter_from(v: NodeFilterView) -> NodeFilterView {
    NodeFilterView {
        regions: trim_all(v.regions),
        include_keywords: trim_all(v.include_keywords),
        exclude_keywords: trim_all(v.exclude_keywords),
        ..v
    }
}

/// The domain source an edited source becomes.
pub open spec fn source_from(v: PoolSourceView) -> PoolSourceView {
    PoolSourceView { filter: filter_from(v.filter), ..v }
}

/// The domain sources edited sources become, in order.
pub open spec fn sources_from(v: Seq<PoolSourceView>) -> Seq<PoolSourceView> {
    Seq::new(v.len(), |i: int| source_from(v[i]))
}

/// The domain matcher an edited matcher becomes: text values trimmed.
pub open spec fn matcher_from(v: TrafficMatcherView) -> TrafficMatcherView {
    match v {
        TrafficMatcherView::Domain(x) => TrafficMatcherView::Domain(trim_all(x)),
        TrafficMatcherView::DomainSuffix(x) => TrafficMatcherView::DomainSuffix(trim_all(x)),
        TrafficMatcherView::Application(x) => TrafficMatcherView::Application(trim_all(x)),
        TrafficMatcherView::IpCidr(x) => TrafficMatcherView::IpCidr(trim_all(x)),
        _ => v,
    }
}

/// Every value of the list, trimmed, in order.
pub fn trim_values(values: &Vec<String>) -> (r: Vec<String>)
    ensures
        r.deep_view() == trim_all(values.deep_view()),
{
    let mut r: Vec<String> = Vec::new();
    let mut i: usize = 0;
    while i < values.len()
        invariant
            i <= values.len(),
            r.len() == i,
            forall|k: int| 0 <= k < i ==> #[trigger] r.deep_view()[k] == trim_seq(values.deep_view()[k]),
        decreases values.len() - i,
    {
        let item = trim(values[i].as_str());
        let ghost before = r.deep_view();
        r.push(item);
        proof {
            assert(r.deep_view() =~= before.push(item.deep_view()));
        }
        i = i + 1;
    }
    proof {
        assert(r.deep_view() =~= trim_all(values.deep_view()));
    }
    r
}

fn node_ids_from(values: &Vec<String>) -> (r: Vec<NodeId>)
    ensures
        r.deep_view() == values.deep_view(),
{
    let mut r: Vec<NodeId> = Vec::new();
    let mut i: usize = 0;
    while i < values.len()
        invariant
            i <= values.len(),
            r.len() == i,
            forall|k: int| 0 <= k < i ==> #[trigger] r.deep_view()[k] == values.deep_view()[k],
        decreases values.len() - i,
    {
        let item = NodeId(values[i].exact_clone());
        let ghost before = r.deep_view();
        r.push(item);
        proof {
            assert(r.deep_view() =~= before.push(item.deep_view()));
        }
        i = i + 1;
    }
    proof {
        assert(r.deep_view() =~= values.deep_view());
    }
    r
}

fn protocols_from(values: &Vec<ProxyProtocolDto>) -> (r: Vec<ProxyProtocol>)
    ensures
        r.deep_view() == values.deep_view(),
{
    let mut r: Vec<ProxyProtocol> = Vec::new();
    let mut i: usize = 0;
    while i < values.len()
        invariant
            i <= values.len(),
            r.len() == i,
            forall|k: int| 0 <= k < i ==> #[trigger] r.deep_view()[k] == values.deep_view()[k],
        decreases values.len() - i,
    {
        let item = protocol_from_dto(values[i]);
        let ghost before = r.deep_view();
        r.push(item);
        proof {
            assert(r.deep_view() =~= before.push(item.deep_view()));
        }
        i = i + 1;
    }
    proof {
        assert(r.deep_view() =~= values.deep_view());
    }
    r
}

/// The domain filter an edited filter becomes.
pub fn node_filter_from_dto(v: &NodeFilterDto) -> (r: NodeFilter)
    ensures
        r.deep_view() == filter_from(v.deep_view()),
{
    NodeFilter {
        regions: trim_values(&v.regions),
        protocols: protocols_from(&v.protocols),
        include_keywords: trim_values(&v.include_keywords),
        exclude_keywords: trim_values(&v.exclude_keywords),
        include_node_ids: node_ids_from(&v.include_node_ids),
        exclude_node_ids: node_ids_from(&v.exclude_node_ids),
    }
}

/// The domain source an edited source becomes.
pub fn pool_source_from_dto(v: &PoolSourceDto) -> (r: PoolSource)
    ensures
        r.deep_view() == source_from(v.deep_view()),
{
    PoolSource {
        provider_id: ProviderId(v.provider_id.exact_clone()),
        filter: node_filter_from_dto(&v.filter),
    }
}

/// The domain sources edited sources become, in order.
pub fn pool_sources_from_dto(v: &Vec<PoolSourceDto>) -> (r: Vec<PoolSource>)
    ensures
        r.deep_view() == sources_from(v.deep_view()),
{
    let mut r: Vec<PoolSource> = Vec::new();
    let mut i: usize = 0;
    while i < v.len()
        invariant
            i <= v.len(),
            r.len() == i,
            forall|k: int| 0 <= k < i ==> #[trigger] r.deep_view()[k] == source_from(v.deep_view()[k]),
        decreases v.len() - i,
    {
        let item = pool_source_from_dto(&v[i]);
        let ghost before = r.deep_view();
        r.push(item);
        proof {
            assert(r.deep_view() =~= before.push(item.deep_view()));
        }
        i = i + 1;
    }
    proof {
        assert(r.deep_view() =~= sources_from(v.deep_view()));
    }
    r
}

/// The domain selection an edited selection becomes.
pub fn selection_from_dto(v: &SelectionDto) -> (r: SelectionPolicy)
    ensures
        r.deep_view() == v.deep_view(),
{
    match v {
        SelectionDto::Manual { selected_node_id } => SelectionPolicy::Manual {
            selected_node_id: match selected_node_id {
                Some(id) => Some(NodeId(id.exact_clone())),
                None => None,
            },
        },
        SelectionDto::UrlTest { probe_url, interval_seconds, tolerance_ms } => {
            SelectionPolicy::UrlTest {
                probe_url: probe_url.exact_clone(),
                interval_secs: *interval_seconds,
                tolerance_ms: *tolerance_ms,
            }
        },
    }
}

fn network_protocols_from(values: &Vec<NetworkProtocolDto>) -> (r: Vec<NetworkProtocol>)
    ensures
        r.deep_view() == values.deep_view(),
{
    let mut r: Vec<NetworkProtocol> = Vec::new();
    let mut i: usize = 0;
    while i < values.len()
        invariant
            i <= values.len(),
            r.len() == i,
            forall|k: int| 0 <= k < i ==> #[trigger] r.deep_view()[k] == values.deep_view()[k],
        decreases values.len() - i,
    {
        let p = match values[i] {
            NetworkProtocolDto::Tcp => NetworkProtocol::Tcp,
            NetworkProtocolDto::Udp => NetworkProtocol::Udp,
        };
        let item = p;
        let ghost before = r.deep_view();
        r.push(item);
        proof {
            assert(r.deep_view() =~= before.push(item.deep_view()));
        }
        i = i + 1;
    }
    proof {
        assert(r.deep_view() =~= values.deep_view());
    }
    r
}

/// The domain matcher an edited matcher becomes.
pub fn matcher_from_dto(v: &MatcherDto) -> (r: TrafficMatcher)
    ensures
        r.deep_view() == matcher_from(v.deep_view()),
{
    match v {
        MatcherDto::Domain(x) => TrafficMatcher::Domain(trim_values(x)),
        MatcherDto::DomainSuffix(x) => TrafficMatcher::DomainSuffix(trim_values(x)),
        MatcherDto::Application(x) => TrafficMatcher::Application(trim_values(x)),
        MatcherDto::IpCidr(x) => TrafficMatcher::IpCidr(trim_values(x)),
        MatcherDto::Port(x) => TrafficMatcher::Port(x.exact_clone()),
        MatcherDto::Protocol(x) => TrafficMatcher::Protocol(network_protocols_from(x)),
    }
}

/// The domain target an edited default target becomes.
pub fn default_target_from_dto(v: &DefaultTargetDto) -> (r: RouteTarget)
    ensures
        r.deep_view() == v.deep_view(),
{
    match v {
        DefaultTargetDto::FollowActiveSubscription => RouteTarget::Unconfigured,
        DefaultTargetDto::Pool { pool_id } => RouteTarget::Pool(PoolId(pool_id.exact_clone())),
        DefaultTargetDto::Direct => RouteTarget::Direct,
        DefaultTargetDto::Block => RouteTarget::Block,
    }
}

/// The domain target an edited route target becomes.
pub fn route_target_from_dto(v: &RouteTargetDto) -> (r: RouteTarget)
    ensures
        r.deep_view() == v.deep_view(),
{
    match v {
        RouteTargetDto::Pool { pool_id } => RouteTarget::Pool(PoolId(pool_id.exact_clone())),
        RouteTargetDto::Direct => RouteTarget::Direct,
        RouteTargetDto::Block => RouteTarget::Block,
    }
}

// ---------------------------------------------------------------------------
// Domain values to editor values
// ---------------------------------------------------------------------------

fn node_id_texts(values: &Vec<NodeId>) -> (r: Vec<String>)
    ensures
        r.deep_view() == values.deep_view(),
{
    let mut r: Vec<String> = Vec::new();
    let mut i: usize = 0;
    while i < values.len()
        invariant
            i <= values.len(),
            r.len() == i,
            forall|k: int| 0 <= k < i ==> #[trigger] r.deep_view()[k] == values.deep_view()[k],
        decreases values.len() - i,
    {
        let item = values[i].0.exact_clone();
        let ghost before = r.deep_view();
        r.push(item);
        proof {
            assert(r.deep_view() =~= before.push(item.deep_view()));
        }
        i = i + 1;
    }
    proof {
        assert(r.deep_view() =~= values.deep_view());
    }
    r
}

/// The editor's form of a domain filter.
pub fn node_filter_to_dto(v: &NodeFilter) -> (r: NodeFilterDto)
    ensures
        r.deep_view() == v.deep_view(),
{
    let mut protocols: Vec<ProxyProtocolDto> = Vec::new();
    let mut i: usize = 0;
    while i < v.protocols.len()
        invariant
            i <= v.protocols.len(),
            protocols.len() == i,
            forall|k: int| 0 <= k < i ==> #[trigger] protocols.deep_view()[k] == v.protocols.deep_view()[k],
        decreases v.protocols.len() - i,
    {
        let item = protocol_to_dto(v.protocols[i]);
        let ghost before = protocols.deep_view();
        protocols.push(item);
        proof {
            assert(protocols.deep_view() =~= before.push(item.deep_view()));
        }
        i = i + 1;
    }
    proof {
        assert(protocols.deep_view() =~= v.protocols.deep_view());
    }
    NodeFilterDto {
        regions: v.regions.exact_clone(),
        protocols,
        include_keywords: v.include_keywords.exact_clone(),
        exclude_keywords: v.exclude_keywords.exact_clone(),
        include_node_ids: node_id_texts(&v.include_node_ids),
        exclude_node_ids: node_id_texts(&v.exclude_node_ids),
    }
}

/// The editor's form of domain sources, in order.
pub fn pool_sources_to_dto(v: &Vec<PoolSource>) -> (r: Vec<PoolSourceDto>)
    ensures
        r.deep_view() == v.deep_view(),
{
    let mut r: Vec<PoolSourceDto> = Vec::new();
    let mut i: usize = 0;
    while i < v.len()
        invariant
            i <= v.len(),
            r.len() == i,
            forall|k: int| 0 <= k < i ==> #[trigger] r.deep_view()[k] == v.deep_view()[k],
        decreases v.len() - i,
    {
        let item = PoolSourceDto {
            provider_id: v[i].provider_id.0.exact_clone(),
            filter: node_filter_to_dto(&v[i].filter),
        };
        let ghost before = r.deep_view();
        r.push(item);
        proof {
            assert(r.deep_view() =~= before.push(item.deep_view()));
        }
        i = i + 1;
    }
    proof {
        assert(r.deep_view() =~= v.deep_view());
    }
    r
}

/// The editor's form of a domain selection.
pub fn selection_to_dto(v: &SelectionPolicy) -> (r: SelectionDto)
    ensures
        r.deep_view() == v.deep_view(),
{
    match v {
        SelectionPolicy::Manual { selected_node_id } => SelectionDto::Manual {
            selected_node_id: match selected_node_id {
                Some(id) => Some(id.0.exact_clone()),
                None => None,
            },
        },
        SelectionPolicy::UrlTest { probe_url, interval_secs, tolerance_ms } => SelectionDto::UrlTest {
            probe_url: probe_url.exact_clone(),
            interval_seconds: *interval_secs,
            tolerance_ms: *tolerance_ms,
        },
    }
}

/// The editor's form of the default target.
pub fn default_target_to_dto(v: &RouteTarget) -> (r: DefaultTargetDto)
    ensures
        r.deep_view() == v.deep_view(),
{
    match v {
        RouteTarget::Unconfigured => DefaultTargetDto::FollowActiveSubscription,
        RouteTarget::Pool(id) => DefaultTargetDto::Pool { pool_id: id.0.exact_clone() },
        RouteTarget::Direct => DefaultTargetDto::Direct,
        RouteTarget::Block => DefaultTargetDto::Block,
    }
}

/// The editor's form of a route target; a route always has a configured target.
pub fn route_target_to_dto(v: &RouteTarget) -> (r: RouteTargetDto)
    requires
        !(v is Unconfigured),
    ensures
        r.deep_view() == v.deep_view(),
{
    match v {
        RouteTarget::Pool(id) => RouteTargetDto::Pool { pool_id: id.0.exact_clone() },
        RouteTarget::Direct => RouteTargetDto::Direct,
        _ => RouteTargetDto::Block,
    }
}

/// The editor's form of a domain matcher.
pub fn matcher_to_dto(v: &TrafficMatcher) -> (r: MatcherDto)
    ensures
        r.deep_view() == v.deep_view(),
{
    match v {
        TrafficMatcher::Domain(x) => MatcherDto::Domain(x.exact_clone()),
        TrafficMatcher::DomainSuffix(x) => MatcherDto::DomainSuffix(x.exact_clone()),
        TrafficMatcher::Application(x) => MatcherDto::Application(x.exact_clone()),
        TrafficMatcher::IpCidr(x) => MatcherDto::IpCidr(x.exact_clone()),
        TrafficMatcher::Port(x) => MatcherDto::Port(x.exact_clone()),
        TrafficMatcher::Protocol(x) => {
            let mut r: Vec<NetworkProtocolDto> = Vec::new();
            let mut i: usize = 0;
            while i < x.len()
                invariant
                    i <= x.len(),
                    r.len() == i,
                    forall|k: int| 0 <= k < i ==> #[trigger] r.deep_view()[k] == x.deep_view()[k],
                decreases x.len() - i,
            {
                let p = match x[i] {
                    NetworkProtocol::Tcp => NetworkProtocolDto::Tcp,
                    NetworkProtocol::Udp => NetworkProtocolDto::Udp,
                };
                let item = p;
                let ghost before = r.deep_view();
                r.push(item);
                proof {
                    assert(r.deep_view() =~= before.push(item.deep_view()));
                }
                i = i + 1;
            }
            proof {
                assert(r.deep_view() =~= x.deep_view());
            }
            MatcherDto::Protocol(r)
        },
    }
}

/// A route as the editor lists it.
#[derive(Clone, Debug, PartialEq, Eq)]
pub struct RouteSnapshot {
    pub id: String,
    pub name: String,
    pub enabled: bool,
    pub priority: i32,
    pub matcher: MatcherDto,
    pub target: RouteTargetDto,
}

/// The editor's listing of a route, whose target is configured.
pub fn route_snapshot(v: &RoutePolicy) -> (r: RouteSnapshot)
    requires
        !(v.target is Unconfigured),
    ensures
        r.id@ == v.id@,
        r.name@ == v.name@,
        r.enabled == v.enabled,
        r.priority == v.priority,
        r.matcher.deep_view() == v.matcher.deep_view(),
        r.target.deep_view() == v.target.deep_view(),
{
    RouteSnapshot {
        id: v.id.0.exact_clone(),
        name: v.name.exact_clone(),
        enabled: v.enabled,
        priority: v.priority,
        matcher: matcher_to_dto(&v.matcher),
        target: route_target_to_dto(&v.target),
    }
}

} // verus!
