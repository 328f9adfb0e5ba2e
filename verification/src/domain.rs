//! The persisted domain model: subscriptions, providers, nodes, pools and routes.
//!
//! Every type has a mathematical view (`deep_view`, also reachable as `@`) in
//! which text is a `Seq<char>` and collections are sequences of views. Copies
//! made by `exact_clone` and comparisons made by `same` are exact with respect
//! to those views.
use vstd::prelude::*;

verus! {

/// Largest integer that JSON consumers can represent exactly.
pub const MAX_SAFE_INTEGER: u64 = 9_007_199_254_740_991;

/// Schema version this build reads and writes.
pub const CURRENT_SCHEMA_VERSION: u32 = 4;

/// A copy that is equal to the original in its view.
pub trait ExactClone: DeepView + Sized {
    fn exact_clone(&self) -> (r: Self)
        ensures
            r.deep_view() == self.deep_view(),
    ;
}

/// A comparison that decides equality of views.
pub trait ExactEq: DeepView {
    fn same(&self, other: &Self) -> (r: bool)
        ensures
            r == (self.deep_view() == other.deep_view()),
    ;
}

impl ExactClone for String {
    fn exact_clone(&self) -> (r: Self) {
        self.clone()
    }
}

impl ExactEq for String {
    fn same(&self, other: &Self) -> (r: bool) {
        *self == *other
    }
}

impl ExactClone for bool {
    fn exact_clone(&self) -> (r: Self) {
        *self
    }
}

impl ExactEq for bool {
    fn same(&self, other: &Self) -> (r: bool) {
        *self == *other
    }
}

impl ExactClone for u8 {
    fn exact_clone(&self) -> (r: Self) {
        *self
    }
}

impl ExactClone for u16 {
    fn exact_clone(&self) -> (r: Self) {
        *self
    }
}

impl ExactEq for u16 {
    fn same(&self, other: &Self) -> (r: bool) {
        *self == *other
    }
}

impl ExactClone for u32 {
    fn exact_clone(&self) -> (r: Self) {
        *self
    }
}

impl ExactEq for u32 {
    fn same(&self, other: &Self) -> (r: bool) {
        *self == *other
    }
}

impl ExactClone for u64 {
    fn exact_clone(&self) -> (r: Self) {
        *self
    }
}

impl ExactEq for u64 {
    fn same(&self, other: &Self) -> (r: bool) {
        *self == *other
    }
}

impl ExactClone for i32 {
    fn exact_clone(&self) -> (r: Self) {
        *self
    }
}

impl ExactEq for i32 {
    fn same(&self, other: &Self) -> (r: bool) {
        *self == *other
    }
}

impl<T: ExactClone> ExactClone for Option<T> {
    fn exact_clone(&self) -> (r: Self) {
        match self {
            Some(v) => Some(v.exact_clone()),
            None => None,
        }
    }
}

impl<T: ExactEq> ExactEq for Option<T> {
    fn same(&self, other: &Self) -> (r: bool) {
        match (self, other) {
            (Some(a), Some(b)) => a.same(b),
            (None, None) => true,
            _ => false,
        }
    }
}

impl<T: ExactClone> ExactClone for Vec<T> {
    fn exact_clone(&self) -> (r: Self) {
        let mut r: Vec<T> = Vec::new();
        let mut i: usize = 0;
        while i < self.len()
            invariant
                i <= self.len(),
                r.deep_view() =~= self.deep_view().take(i as int),
            decreases self.len() - i,
        {
            let ghost before = r.deep_view();
            let x = self[i].exact_clone();
            r.push(x);
            proof {
                assert(r.deep_view() =~= before.push(x.deep_view()));
                assert(self.deep_view().take(i + 1) =~= self.deep_view().take(i as int).push(
                    self.deep_view()[i as int],
                ));
            }
            i = i + 1;
        }
        proof {
            assert(self.deep_view().take(self.len() as int) =~= self.deep_view());
        }
        r
    }
}

impl<T: ExactEq> ExactEq for Vec<T> {
    fn same(&self, other: &Self) -> (r: bool) {
        if self.len() != other.len() {
            proof {
                assert(self.deep_view().len() != other.deep_view().len());
            }
            return false;
        }
        let mut i: usize = 0;
        while i < self.len()
            invariant
                i <= self.len() == other.len(),
                forall|k: int| 0 <= k < i ==> self.deep_view()[k] == other.deep_view()[k],
            decreases self.len() - i,
        {
            if !self[i].same(&other[i]) {
                proof {
                    assert(self.deep_view()[i as int] != other.deep_view()[i as int]);
                }
                return false;
            }
            i = i + 1;
        }
        proof {
            assert(self.deep_view() =~= other.deep_view());
        }
        true
    }
}

/// Stable identity of a subscription.
#[derive(Clone, Debug, PartialEq, Eq, Hash)]
pub struct SubscriptionId(pub String);

impl DeepView for SubscriptionId {
    type V = Seq<char>;

    open spec fn deep_view(&self) -> Seq<char> {
        self.0@
    }
}

impl View for SubscriptionId {
    type V = Seq<char>;

    open spec fn view(&self) -> Seq<char> {
        self.0@
    }
}

impl ExactClone for SubscriptionId {
    fn exact_clone(&self) -> (r: Self) {
        SubscriptionId(self.0.exact_clone())
    }
}

impl ExactEq for SubscriptionId {
    fn same(&self, other: &Self) -> (r: bool) {
        self.0.same(&other.0)
    }
}

/// Stable identity of a node provider (one per subscription source).
#[derive(Clone, Debug, PartialEq, Eq, Hash)]
pub struct ProviderId(pub String);

impl DeepView for ProviderId {
    type V = Seq<char>;

    open spec fn deep_view(&self) -> Seq<char> {
        self.0@
    }
}

impl View for ProviderId {
    type V = Seq<char>;

    open spec fn view(&self) -> Seq<char> {
        self.0@
    }
}

impl ExactClone for ProviderId {
    fn exact_clone(&self) -> (r: Self) {
        ProviderId(self.0.exact_clone())
    }
}

impl ExactEq for ProviderId {
    fn same(&self, other: &Self) -> (r: bool) {
        self.0.same(&other.0)
    }
}

/// Stable identity of a proxy node.
#[derive(Clone, Debug, PartialEq, Eq, Hash)]
pub struct NodeId(pub String);

impl DeepView for NodeId {
    type V = Seq<char>;

    open spec fn deep_view(&self) -> Seq<char> {
        self.0@
    }
}

impl View for NodeId {
    type V = Seq<char>;

    open spec fn view(&self) -> Seq<char> {
        self.0@
    }
}

impl ExactClone for NodeId {
    fn exact_clone(&self) -> (r: Self) {
        NodeId(self.0.exact_clone())
    }
}

impl ExactEq for NodeId {
    fn same(&self, other: &Self) -> (r: bool) {
        self.0.same(&other.0)
    }
}

/// Stable identity of a node pool.
#[derive(Clone, Debug, PartialEq, Eq, Hash)]
pub struct PoolId(pub String);

impl DeepView for PoolId {
    type V = Seq<char>;

    open spec fn deep_view(&self) -> Seq<char> {
        self.0@
    }
}

impl View for PoolId {
    type V = Seq<char>;

    open spec fn view(&self) -> Seq<char> {
        self.0@
    }
}

impl ExactClone for PoolId {
    fn exact_clone(&self) -> (r: Self) {
        PoolId(self.0.exact_clone())
    }
}

impl ExactEq for PoolId {
    fn same(&self, other: &Self) -> (r: bool) {
        self.0.same(&other.0)
    }
}

/// Stable identity of a routing rule.
#[derive(Clone, Debug, PartialEq, Eq, Hash)]
pub struct RoutePolicyId(pub String);

impl DeepView for RoutePolicyId {
    type V = Seq<char>;

    open spec fn deep_view(&self) -> Seq<char> {
        self.0@
    }
}

impl View for RoutePolicyId {
    type V = Seq<char>;

    open spec fn view(&self) -> Seq<char> {
        self.0@
    }
}

impl ExactClone for RoutePolicyId {
    fn exact_clone(&self) -> (r: Self) {
        RoutePolicyId(self.0.exact_clone())
    }
}

impl ExactEq for RoutePolicyId {
    fn same(&self, other: &Self) -> (r: bool) {
        self.0.same(&other.0)
    }
}

/// Outbound proxy protocol of a node.
#[derive(Clone, Copy, Debug, PartialEq, Eq, Hash, Structural)]
pub enum ProxyProtocol {
    Socks,
    Http,
    Shadowsocks,
    Vmess,
    Vless,
    Trojan,
    WireGuard,
    Hysteria,
    Hysteria2,
    Tuic,
    ShadowTls,
    Ssh,
    Naive,
    AnyTls,
    Snell,
}

impl DeepView for ProxyProtocol {
    type V = ProxyProtocol;

    open spec fn deep_view(&self) -> ProxyProtocol {
        *self
    }
}

impl ExactClone for ProxyProtocol {
    fn exact_clone(&self) -> (r: Self) {
        *self
    }
}

impl ExactEq for ProxyProtocol {
    fn same(&self, other: &Self) -> (r: bool) {
        *self == *other
    }
}

/// Transport-layer protocol a routing rule can match.
#[derive(Clone, Copy, Debug, PartialEq, Eq, Hash, Structural)]
pub enum NetworkProtocol {
    Tcp,
    Udp,
}

impl DeepView for NetworkProtocol {
    type V = NetworkProtocol;

    open spec fn deep_view(&self) -> NetworkProtocol {
        *self
    }
}

impl ExactClone for NetworkProtocol {
    fn exact_clone(&self) -> (r: Self) {
        *self
    }
}

impl ExactEq for NetworkProtocol {
    fn same(&self, other: &Self) -> (r: bool) {
        *self == *other
    }
}

/// Whether a pool was created for one provider or assembled by the user.
#[derive(Clone, Copy, Debug, PartialEq, Eq, Hash, Structural)]
pub enum PoolKind {
    ImplicitProvider,
    Custom,
}

impl DeepView for PoolKind {
    type V = PoolKind;

    open spec fn deep_view(&self) -> PoolKind {
        *self
    }
}

impl ExactClone for PoolKind {
    fn exact_clone(&self) -> (r: Self) {
        *self
    }
}

impl ExactEq for PoolKind {
    fn same(&self, other: &Self) -> (r: bool) {
        *self == *other
    }
}

/// Format of a stored, editable subscription document.
#[derive(Clone, Copy, Debug, PartialEq, Eq, Hash, Structural)]
pub enum SubscriptionDocumentFormat {
    Json,
    Yaml,
}

impl DeepView for SubscriptionDocumentFormat {
    type V = SubscriptionDocumentFormat;

    open spec fn deep_view(&self) -> SubscriptionDocumentFormat {
        *self
    }
}

impl ExactClone for SubscriptionDocumentFormat {
    fn exact_clone(&self) -> (r: Self) {
        *self
    }
}

impl ExactEq for SubscriptionDocumentFormat {
    fn same(&self, other: &Self) -> (r: bool) {
        *self == *other
    }
}

/// Which network path a remote subscription fetch takes.
#[derive(Clone, Copy, Debug, PartialEq, Eq, Hash, Structural)]
pub enum SubscriptionProxyMode {
    Direct,
    System,
    ManagedCore,
}

impl DeepView for SubscriptionProxyMode {
    type V = SubscriptionProxyMode;

    open spec fn deep_view(&self) -> SubscriptionProxyMode {
        *self
    }
}

impl ExactClone for SubscriptionProxyMode {
    fn exact_clone(&self) -> (r: Self) {
        *self
    }
}

impl ExactEq for SubscriptionProxyMode {
    fn same(&self, other: &Self) -> (r: bool) {
        *self == *other
    }
}

/// Quota information a provider reports for a subscription.
#[derive(Clone, Copy, Debug, Default, PartialEq, Eq, Hash, Structural)]
pub struct SubscriptionTraffic {
    pub upload: Option<u64>,
    pub download: Option<u64>,
    pub total: Option<u64>,
    pub expire_at_ms: Option<u64>,
}

impl DeepView for SubscriptionTraffic {
    type V = SubscriptionTraffic;

    open spec fn deep_view(&self) -> SubscriptionTraffic {
        *self
    }
}

impl ExactClone for SubscriptionTraffic {
    fn exact_clone(&self) -> (r: Self) {
        *self
    }
}

impl ExactEq for SubscriptionTraffic {
    fn same(&self, other: &Self) -> (r: bool) {
        *self == *other
    }
}

/// Automatic refresh settings of a subscription.
#[derive(Clone, Copy, Debug, Default, PartialEq, Eq, Hash, Structural)]
pub struct SubscriptionUpdatePolicy {
    pub allow_auto_update: bool,
    pub interval_minutes: Option<u32>,
}

impl DeepView for SubscriptionUpdatePolicy {
    type V = SubscriptionUpdatePolicy;

    open spec fn deep_view(&self) -> SubscriptionUpdatePolicy {
        *self
    }
}

impl ExactClone for SubscriptionUpdatePolicy {
    fn exact_clone(&self) -> (r: Self) {
        *self
    }
}

impl ExactEq for SubscriptionUpdatePolicy {
    fn same(&self, other: &Self) -> (r: bool) {
        *self == *other
    }
}

/// Protocol credentials of a node.
#[derive(Clone, Debug, PartialEq, Eq)]
pub enum ProtocolOptions {
    Shadowsocks { method: String, password: String },
    Vless { uuid: String, flow: Option<String> },
    Vmess { uuid: String },
    Trojan { password: String },
    Credentials { username: Option<String>, password: Option<String> },
}

/// Mathematical view of [`ProtocolOptions`].
pub ghost enum ProtocolOptionsView {
    Shadowsocks { method: Seq<char>, password: Seq<char> },
    Vless { uuid: Seq<char>, flow: Option<Seq<char>> },
    Vmess { uuid: Seq<char> },
    Trojan { password: Seq<char> },
    Credentials { username: Option<Seq<char>>, password: Option<Seq<char>> },
}

impl DeepView for ProtocolOptions {
    type V = ProtocolOptionsView;

    open spec fn deep_view(&self) -> ProtocolOptionsView {
        match self {
            ProtocolOptions::Shadowsocks { method, password } => ProtocolOptionsView::Shadowsocks { method: method.deep_view(), password: password.deep_view() },
            ProtocolOptions::Vless { uuid, flow } => ProtocolOptionsView::Vless { uuid: uuid.deep_view(), flow: flow.deep_view() },
            ProtocolOptions::Vmess { uuid } => ProtocolOptionsView::Vmess { uuid: uuid.deep_view() },
            ProtocolOptions::Trojan { password } => ProtocolOptionsView::Trojan { password: password.deep_view() },
            ProtocolOptions::Credentials { username, password } => ProtocolOptionsView::Credentials { username: username.deep_view(), password: password.deep_view() },
        }
    }
}

impl View for ProtocolOptions {
    type V = ProtocolOptionsView;

    open spec fn view(&self) -> ProtocolOptionsView {
        self.deep_view()
    }
}

impl ExactClone for ProtocolOptions {
    fn exact_clone(&self) -> (r: Self) {
        match self {
            ProtocolOptions::Shadowsocks { method, password } => ProtocolOptions::Shadowsocks { method: method.exact_clone(), password: password.exact_clone() },
            ProtocolOptions::Vless { uuid, flow } => ProtocolOptions::Vless { uuid: uuid.exact_clone(), flow: flow.exact_clone() },
            ProtocolOptions::Vmess { uuid } => ProtocolOptions::Vmess { uuid: uuid.exact_clone() },
            ProtocolOptions::Trojan { password } => ProtocolOptions::Trojan { password: password.exact_clone() },
            ProtocolOptions::Credentials { username, password } => ProtocolOptions::Credentials { username: username.exact_clone(), password: password.exact_clone() },
        }
    }
}

impl ExactEq for ProtocolOptions {
    fn same(&self, other: &Self) -> (r: bool) {
        match (self, other) {
            (ProtocolOptions::Shadowsocks { method: a_method, password: a_password }, ProtocolOptions::Shadowsocks { method: b_method, password: b_password }) => a_method.same(b_method) && a_password.same(b_password),
            (ProtocolOptions::Vless { uuid: a_uuid, flow: a_flow }, ProtocolOptions::Vless { uuid: b_uuid, flow: b_flow }) => a_uuid.same(b_uuid) && a_flow.same(b_flow),
            (ProtocolOptions::Vmess { uuid: a_uuid }, ProtocolOptions::Vmess { uuid: b_uuid }) => a_uuid.same(b_uuid),
            (ProtocolOptions::Trojan { password: a_password }, ProtocolOptions::Trojan { password: b_password }) => a_password.same(b_password),
            (ProtocolOptions::Credentials { username: a_username, password: a_password }, ProtocolOptions::Credentials { username: b_username, password: b_password }) => a_username.same(b_username) && a_password.same(b_password),
            _ => false,
        }
    }
}

/// Stream transport of a node.
#[derive(Clone, Debug, PartialEq, Eq)]
pub enum Transport {
    Tcp,
    WebSocket { path: String },
    Grpc { service_name: String },
}

/// Mathematical view of [`Transport`].
pub ghost enum TransportView {
    Tcp,
    WebSocket { path: Seq<char> },
    Grpc { service_name: Seq<char> },
}

impl DeepView for Transport {
    type V = TransportView;

    open spec fn deep_view(&self) -> TransportView {
        match self {
            Transport::Tcp => TransportView::Tcp,
            Transport::WebSocket { path } => TransportView::WebSocket { path: path.deep_view() },
            Transport::Grpc { service_name } => TransportView::Grpc { service_name: service_name.deep_view() },
        }
    }
}

impl View for Transport {
    type V = TransportView;

    open spec fn view(&self) -> TransportView {
        self.deep_view()
    }
}

impl ExactClone for Transport {
    fn exact_clone(&self) -> (r: Self) {
        match self {
            Transport::Tcp => Transport::Tcp,
            Transport::WebSocket { path } => Transport::WebSocket { path: path.exact_clone() },
            Transport::Grpc { service_name } => Transport::Grpc { service_name: service_name.exact_clone() },
        }
    }
}

impl ExactEq for Transport {
    fn same(&self, other: &Self) -> (r: bool) {
        match (self, other) {
            (Transport::Tcp, Transport::Tcp) => true,
            (Transport::WebSocket { path: a_path }, Transport::WebSocket { path: b_path }) => a_path.same(b_path),
            (Transport::Grpc { service_name: a_service_name }, Transport::Grpc { service_name: b_service_name }) => a_service_name.same(b_service_name),
            _ => false,
        }
    }
}

/// TLS settings of a node.
#[derive(Clone, Debug, PartialEq, Eq)]
pub struct TlsOptions {
    pub server_name: Option<String>,
    pub insecure: bool,
}

/// Mathematical view of [`TlsOptions`].
pub ghost struct TlsOptionsView {
    pub server_name: Option<Seq<char>>,
    pub insecure: bool,
}

impl DeepView for TlsOptions {
    type V = TlsOptionsView;

    open spec fn deep_view(&self) -> TlsOptionsView {
        TlsOptionsView {
            server_name: self.server_name.deep_view(),
            insecure: self.insecure.deep_view(),
        }
    }
}

impl View for TlsOptions {
    type V = TlsOptionsView;

    open spec fn view(&self) -> TlsOptionsView {
        self.deep_view()
    }
}

impl ExactClone for TlsOptions {
    fn exact_clone(&self) -> (r: Self) {
        let server_name = self.server_name.exact_clone();
        let insecure = self.insecure.exact_clone();
        TlsOptions { server_name, insecure }
    }
}

impl ExactEq for TlsOptions {
    fn same(&self, other: &Self) -> (r: bool) {
        self.server_name.same(&other.server_name)
            && self.insecure.same(&other.insecure)
    }
}

/// One outbound proxy node.
#[derive(Clone, Debug, PartialEq, Eq)]
pub struct ProxyNode {
    pub id: NodeId,
    pub provider_id: ProviderId,
    pub name: String,
    pub protocol: ProxyProtocol,
    pub server: String,
    pub port: u16,
    pub options: ProtocolOptions,
    pub transport: Option<Transport>,
    pub tls: Option<TlsOptions>,
}

/// Mathematical view of [`ProxyNode`].
pub ghost struct ProxyNodeView {
    pub id: Seq<char>,
    pub provider_id: Seq<char>,
    pub name: Seq<char>,
    pub protocol: ProxyProtocol,
    pub server: Seq<char>,
    pub port: u16,
    pub options: ProtocolOptionsView,
    pub transport: Option<TransportView>,
    pub tls: Option<TlsOptionsView>,
}

impl DeepView for ProxyNode {
    type V = ProxyNodeView;

    open spec fn deep_view(&self) -> ProxyNodeView {
        ProxyNodeView {
            id: self.id.deep_view(),
            provider_id: self.provider_id.deep_view(),
            name: self.name.deep_view(),
            protocol: self.protocol.deep_view(),
            server: self.server.deep_view(),
            port: self.port.deep_view(),
            options: self.options.deep_view(),
            transport: self.transport.deep_view(),
            tls: self.tls.deep_view(),
        }
    }
}

impl View for ProxyNode {
    type V = ProxyNodeView;

    open spec fn view(&self) -> ProxyNodeView {
        self.deep_view()
    }
}

impl ExactClone for ProxyNode {
    fn exact_clone(&self) -> (r: Self) {
        let id = self.id.exact_clone();
        let provider_id = self.provider_id.exact_clone();
        let name = self.name.exact_clone();
        let protocol = self.protocol.exact_clone();
        let server = self.server.exact_clone();
        let port = self.port.exact_clone();
        let options = self.options.exact_clone();
        let transport = self.transport.exact_clone();
        let tls = self.tls.exact_clone();
        ProxyNode { id, provider_id, name, protocol, server, port, options, transport, tls }
    }
}

impl ExactEq for ProxyNode {
    fn same(&self, other: &Self) -> (r: bool) {
        self.id.same(&other.id)
            && self.provider_id.same(&other.provider_id)
            && self.name.same(&other.name)
            && self.protocol.same(&other.protocol)
            && self.server.same(&other.server)
            && self.port.same(&other.port)
            && self.options.same(&other.options)
            && self.transport.same(&other.transport)
            && self.tls.same(&other.tls)
    }
}

/// The node provider that belongs to a subscription.
#[derive(Clone, Debug, PartialEq, Eq)]
pub struct Provider {
    pub id: ProviderId,
    pub subscription_id: SubscriptionId,
    pub name: String,
}

/// Mathematical view of [`Provider`].
pub ghost struct ProviderView {
    pub id: Seq<char>,
    pub subscription_id: Seq<char>,
    pub name: Seq<char>,
}

impl DeepView for Provider {
    type V = ProviderView;

    open spec fn deep_view(&self) -> ProviderView {
        ProviderView {
            id: self.id.deep_view(),
            subscription_id: self.subscription_id.deep_view(),
            name: self.name.deep_view(),
        }
    }
}

impl View for Provider {
    type V = ProviderView;

    open spec fn view(&self) -> ProviderView {
        self.deep_view()
    }
}

impl ExactClone for Provider {
    fn exact_clone(&self) -> (r: Self) {
        let id = self.id.exact_clone();
        let subscription_id = self.subscription_id.exact_clone();
        let name = self.name.exact_clone();
        Provider { id, subscription_id, name }
    }
}

impl ExactEq for Provider {
    fn same(&self, other: &Self) -> (r: bool) {
        self.id.same(&other.id)
            && self.subscription_id.same(&other.subscription_id)
            && self.name.same(&other.name)
    }
}

/// Where a subscription's nodes come from.
#[derive(Clone, Debug, PartialEq, Eq)]
pub enum SubscriptionSource {
    Remote { url: String },
    Manual,
}

/// Mathematical view of [`SubscriptionSource`].
pub ghost enum SubscriptionSourceView {
    Remote { url: Seq<char> },
    Manual,
}

impl DeepView for SubscriptionSource {
    type V = SubscriptionSourceView;

    open spec fn deep_view(&self) -> SubscriptionSourceView {
        match self {
            SubscriptionSource::Remote { url } => SubscriptionSourceView::Remote { url: url.deep_view() },
            SubscriptionSource::Manual => SubscriptionSourceView::Manual,
        }
    }
}

impl View for SubscriptionSource {
    type V = SubscriptionSourceView;

    open spec fn view(&self) -> SubscriptionSourceView {
        self.deep_view()
    }
}

impl ExactClone for SubscriptionSource {
    fn exact_clone(&self) -> (r: Self) {
        match self {
            SubscriptionSource::Remote { url } => SubscriptionSource::Remote { url: url.exact_clone() },
            SubscriptionSource::Manual => SubscriptionSource::Manual,
        }
    }
}

impl ExactEq for SubscriptionSource {
    fn same(&self, other: &Self) -> (r: bool) {
        match (self, other) {
            (SubscriptionSource::Remote { url: a_url }, SubscriptionSource::Remote { url: b_url }) => a_url.same(b_url),
            (SubscriptionSource::Manual, SubscriptionSource::Manual) => true,
            _ => false,
        }
    }
}

/// The stored document a subscription was parsed from.
#[derive(Clone, Debug, PartialEq, Eq)]
pub struct SubscriptionDocument {
    pub format: SubscriptionDocumentFormat,
    pub content: String,
    pub local_override: bool,
}

/// Mathematical view of [`SubscriptionDocument`].
pub ghost struct SubscriptionDocumentView {
    pub format: SubscriptionDocumentFormat,
    pub content: Seq<char>,
    pub local_override: bool,
}

impl DeepView for SubscriptionDocument {
    type V = SubscriptionDocumentView;

    open spec fn deep_view(&self) -> SubscriptionDocumentView {
        SubscriptionDocumentView {
            format: self.format.deep_view(),
            content: self.content.deep_view(),
            local_override: self.local_override.deep_view(),
        }
    }
}

impl View for SubscriptionDocument {
    type V = SubscriptionDocumentView;

    open spec fn view(&self) -> SubscriptionDocumentView {
        self.deep_view()
    }
}

impl ExactClone for SubscriptionDocument {
    fn exact_clone(&self) -> (r: Self) {
        let format = self.format.exact_clone();
        let content = self.content.exact_clone();
        let local_override = self.local_override.exact_clone();
        SubscriptionDocument { format, content, local_override }
    }
}

impl ExactEq for SubscriptionDocument {
    fn same(&self, other: &Self) -> (r: bool) {
        self.format.same(&other.format)
            && self.content.same(&other.content)
            && self.local_override.same(&other.local_override)
    }
}

/// Cache validators and metadata of the last remote response.
#[derive(Clone, Debug, PartialEq, Eq)]
pub struct SubscriptionHttpMetadata {
    pub etag: Option<String>,
    pub last_modified: Option<String>,
    pub subscription_userinfo: Option<SubscriptionTraffic>,
    pub content_disposition: Option<String>,
}

/// Mathematical view of [`SubscriptionHttpMetadata`].
pub ghost struct SubscriptionHttpMetadataView {
    pub etag: Option<Seq<char>>,
    pub last_modified: Option<Seq<char>>,
    pub subscription_userinfo: Option<SubscriptionTraffic>,
    pub content_disposition: Option<Seq<char>>,
}

impl DeepView for SubscriptionHttpMetadata {
    type V = SubscriptionHttpMetadataView;

    open spec fn deep_view(&self) -> SubscriptionHttpMetadataView {
        SubscriptionHttpMetadataView {
            etag: self.etag.deep_view(),
            last_modified: self.last_modified.deep_view(),
            subscription_userinfo: self.subscription_userinfo.deep_view(),
            content_disposition: self.content_disposition.deep_view(),
        }
    }
}

impl View for SubscriptionHttpMetadata {
    type V = SubscriptionHttpMetadataView;

    open spec fn view(&self) -> SubscriptionHttpMetadataView {
        self.deep_view()
    }
}

impl ExactClone for SubscriptionHttpMetadata {
    fn exact_clone(&self) -> (r: Self) {
        let etag = self.etag.exact_clone();
        let last_modified = self.last_modified.exact_clone();
        let subscription_userinfo = self.subscription_userinfo.exact_clone();
        let content_disposition = self.content_disposition.exact_clone();
        SubscriptionHttpMetadata { etag, last_modified, subscription_userinfo, content_disposition }
    }
}

impl ExactEq for SubscriptionHttpMetadata {
    fn same(&self, other: &Self) -> (r: bool) {
        self.etag.same(&other.etag)
            && self.last_modified.same(&other.last_modified)
            && self.subscription_userinfo.same(&other.subscription_userinfo)
            && self.content_disposition.same(&other.content_disposition)
    }
}

/// How a remote subscription is fetched.
#[derive(Clone, Debug, PartialEq, Eq)]
pub struct RemoteRequestOptions {
    pub user_agent: Option<String>,
    pub timeout_seconds: u16,
    pub proxy_mode: SubscriptionProxyMode,
    pub verify_tls: bool,
}

/// Mathematical view of [`RemoteRequestOptions`].
pub ghost struct RemoteRequestOptionsView {
    pub user_agent: Option<Seq<char>>,
    pub timeout_seconds: u16,
    pub proxy_mode: SubscriptionProxyMode,
    pub verify_tls: bool,
}

impl DeepView for RemoteRequestOptions {
    type V = RemoteRequestOptionsView;

    open spec fn deep_view(&self) -> RemoteRequestOptionsView {
        RemoteRequestOptionsView {
            user_agent: self.user_agent.deep_view(),
            timeout_seconds: self.timeout_seconds.deep_view(),
            proxy_mode: self.proxy_mode.deep_view(),
            verify_tls: self.verify_tls.deep_view(),
        }
    }
}

impl View for RemoteRequestOptions {
    type V = RemoteRequestOptionsView;

    open spec fn view(&self) -> RemoteRequestOptionsView {
        self.deep_view()
    }
}

impl ExactClone for RemoteRequestOptions {
    fn exact_clone(&self) -> (r: Self) {
        let user_agent = self.user_agent.exact_clone();
        let timeout_seconds = self.timeout_seconds.exact_clone();
        let proxy_mode = self.proxy_mode.exact_clone();
        let verify_tls = self.verify_tls.exact_clone();
        RemoteRequestOptions { user_agent, timeout_seconds, proxy_mode, verify_tls }
    }
}

impl ExactEq for RemoteRequestOptions {
    fn same(&self, other: &Self) -> (r: bool) {
        self.user_agent.same(&other.user_agent)
            && self.timeout_seconds.same(&other.timeout_seconds)
            && self.proxy_mode.same(&other.proxy_mode)
            && self.verify_tls.same(&other.verify_tls)
    }
}

/// One imported subscription.
#[derive(Clone, Debug, PartialEq, Eq)]
pub struct Subscription {
    pub id: SubscriptionId,
    pub name: String,
    pub description: String,
    pub source: SubscriptionSource,
    pub document: Option<SubscriptionDocument>,
    pub skipped_unsupported_nodes: u32,
    pub last_success_at_ms: Option<u64>,
    pub last_attempt_at_ms: Option<u64>,
    pub http_metadata: Option<SubscriptionHttpMetadata>,
    pub remote_request: Option<RemoteRequestOptions>,
    pub update_policy: SubscriptionUpdatePolicy,
}

/// Mathematical view of [`Subscription`].
pub ghost struct SubscriptionView {
    pub id: Seq<char>,
    pub name: Seq<char>,
    pub description: Seq<char>,
    pub source: SubscriptionSourceView,
    pub document: Option<SubscriptionDocumentView>,
    pub skipped_unsupported_nodes: u32,
    pub last_success_at_ms: Option<u64>,
    pub last_attempt_at_ms: Option<u64>,
    pub http_metadata: Option<SubscriptionHttpMetadataView>,
    pub remote_request: Option<RemoteRequestOptionsView>,
    pub update_policy: SubscriptionUpdatePolicy,
}

impl DeepView for Subscription {
    type V = SubscriptionView;

    open spec fn deep_view(&self) -> SubscriptionView {
        SubscriptionView {
            id: self.id.deep_view(),
            name: self.name.deep_view(),
            description: self.description.deep_view(),
            source: self.source.deep_view(),
            document: self.document.deep_view(),
            skipped_unsupported_nodes: self.skipped_unsupported_nodes.deep_view(),
            last_success_at_ms: self.last_success_at_ms.deep_view(),
            last_attempt_at_ms: self.last_attempt_at_ms.deep_view(),
            http_metadata: self.http_metadata.deep_view(),
            remote_request: self.remote_request.deep_view(),
            update_policy: self.update_policy.deep_view(),
        }
    }
}

impl View for Subscription {
    type V = SubscriptionView;

    open spec fn view(&self) -> SubscriptionView {
        self.deep_view()
    }
}

impl ExactClone for Subscription {
    fn exact_clone(&self) -> (r: Self) {
        let id = self.id.exact_clone();
        let name = self.name.exact_clone();
        let description = self.description.exact_clone();
        let source = self.source.exact_clone();
        let document = self.document.exact_clone();
        let skipped_unsupported_nodes = self.skipped_unsupported_nodes.exact_clone();
        let last_success_at_ms = self.last_success_at_ms.exact_clone();
        let last_attempt_at_ms = self.last_attempt_at_ms.exact_clone();
        let http_metadata = self.http_metadata.exact_clone();
        let remote_request = self.remote_request.exact_clone();
        let update_policy = self.update_policy.exact_clone();
        Subscription { id, name, description, source, document, skipped_unsupported_nodes, last_success_at_ms, last_attempt_at_ms, http_metadata, remote_request, update_policy }
    }
}

impl ExactEq for Subscription {
    fn same(&self, other: &Self) -> (r: bool) {
        self.id.same(&other.id)
            && self.name.same(&other.name)
            && self.description.same(&other.description)
            && self.source.same(&other.source)
            && self.document.same(&other.document)
            && self.skipped_unsupported_nodes.same(&other.skipped_unsupported_nodes)
            && self.last_success_at_ms.same(&other.last_success_at_ms)
            && self.last_attempt_at_ms.same(&other.last_attempt_at_ms)
            && self.http_metadata.same(&other.http_metadata)
            && self.remote_request.same(&other.remote_request)
            && self.update_policy.same(&other.update_policy)
    }
}

/// Narrows the nodes that one pool source contributes.
#[derive(Clone, Debug, PartialEq, Eq)]
pub struct NodeFilter {
    pub regions: Vec<String>,
    pub protocols: Vec<ProxyProtocol>,
    pub include_keywords: Vec<String>,
    pub exclude_keywords: Vec<String>,
    pub include_node_ids: Vec<NodeId>,
    pub exclude_node_ids: Vec<NodeId>,
}

/// Mathematical view of [`NodeFilter`].
pub ghost struct NodeFilterView {
    pub regions: Seq<Seq<char>>,
    pub protocols: Seq<ProxyProtocol>,
    pub include_keywords: Seq<Seq<char>>,
    pub exclude_keywords: Seq<Seq<char>>,
    pub include_node_ids: Seq<Seq<char>>,
    pub exclude_node_ids: Seq<Seq<char>>,
}

impl DeepView for NodeFilter {
    type V = NodeFilterView;

    open spec fn deep_view(&self) -> NodeFilterView {
        NodeFilterView {
            regions: self.regions.deep_view(),
            protocols: self.protocols.deep_view(),
            include_keywords: self.include_keywords.deep_view(),
            exclude_keywords: self.exclude_keywords.deep_view(),
            include_node_ids: self.include_node_ids.deep_view(),
            exclude_node_ids: self.exclude_node_ids.deep_view(),
        }
    }
}

impl View for NodeFilter {
    type V = NodeFilterView;

    open spec fn view(&self) -> NodeFilterView {
        self.deep_view()
    }
}

impl ExactClone for NodeFilter {
    fn exact_clone(&self) -> (r: Self) {
        let regions = self.regions.exact_clone();
        let protocols = self.protocols.exact_clone();
        let include_keywords = self.include_keywords.exact_clone();
        let exclude_keywords = self.exclude_keywords.exact_clone();
        let include_node_ids = self.include_node_ids.exact_clone();
        let exclude_node_ids = self.exclude_node_ids.exact_clone();
        NodeFilter { regions, protocols, include_keywords, exclude_keywords, include_node_ids, exclude_node_ids }
    }
}

impl ExactEq for NodeFilter {
    fn same(&self, other: &Self) -> (r: bool) {
        self.regions.same(&other.regions)
            && self.protocols.same(&other.protocols)
            && self.include_keywords.same(&other.include_keywords)
            && self.exclude_keywords.same(&other.exclude_keywords)
            && self.include_node_ids.same(&other.include_node_ids)
            && self.exclude_node_ids.same(&other.exclude_node_ids)
    }
}

/// One provider contributing nodes to a pool.
#[derive(Clone, Debug, PartialEq, Eq)]
pub struct PoolSource {
    pub provider_id: ProviderId,
    pub filter: NodeFilter,
}

/// Mathematical view of [`PoolSource`].
pub ghost struct PoolSourceView {
    pub provider_id: Seq<char>,
    pub filter: NodeFilterView,
}

impl DeepView for PoolSource {
    type V = PoolSourceView;

    open spec fn deep_view(&self) -> PoolSourceView {
        PoolSourceView {
            provider_id: self.provider_id.deep_view(),
            filter: self.filter.deep_view(),
        }
    }
}

impl View for PoolSource {
    type V = PoolSourceView;

    open spec fn view(&self) -> PoolSourceView {
        self.deep_view()
    }
}

impl ExactClone for PoolSource {
    fn exact_clone(&self) -> (r: Self) {
        let provider_id = self.provider_id.exact_clone();
        let filter = self.filter.exact_clone();
        PoolSource { provider_id, filter }
    }
}

impl ExactEq for PoolSource {
    fn same(&self, other: &Self) -> (r: bool) {
        self.provider_id.same(&other.provider_id)
            && self.filter.same(&other.filter)
    }
}

/// How a pool chooses its active member.
#[derive(Clone, Debug, PartialEq, Eq)]
pub enum SelectionPolicy {
    Manual { selected_node_id: Option<NodeId> },
    UrlTest { probe_url: String, interval_secs: u64, tolerance_ms: u32 },
}

/// Mathematical view of [`SelectionPolicy`].
pub ghost enum SelectionPolicyView {
    Manual { selected_node_id: Option<Seq<char>> },
    UrlTest { probe_url: Seq<char>, interval_secs: u64, tolerance_ms: u32 },
}

impl DeepView for SelectionPolicy {
    type V = SelectionPolicyView;

    open spec fn deep_view(&self) -> SelectionPolicyView {
        match self {
            SelectionPolicy::Manual { selected_node_id } => SelectionPolicyView::Manual { selected_node_id: selected_node_id.deep_view() },
            SelectionPolicy::UrlTest { probe_url, interval_secs, tolerance_ms } => SelectionPolicyView::UrlTest { probe_url: probe_url.deep_view(), interval_secs: interval_secs.deep_view(), tolerance_ms: tolerance_ms.deep_view() },
        }
    }
}

impl View for SelectionPolicy {
    type V = SelectionPolicyView;

    open spec fn view(&self) -> SelectionPolicyView {
        self.deep_view()
    }
}

impl ExactClone for SelectionPolicy {
    fn exact_clone(&self) -> (r: Self) {
        match self {
            SelectionPolicy::Manual { selected_node_id } => SelectionPolicy::Manual { selected_node_id: selected_node_id.exact_clone() },
            SelectionPolicy::UrlTest { probe_url, interval_secs, tolerance_ms } => SelectionPolicy::UrlTest { probe_url: probe_url.exact_clone(), interval_secs: interval_secs.exact_clone(), tolerance_ms: tolerance_ms.exact_clone() },
        }
    }
}

impl ExactEq for SelectionPolicy {
    fn same(&self, other: &Self) -> (r: bool) {
        match (self, other) {
            (SelectionPolicy::Manual { selected_node_id: a_selected_node_id }, SelectionPolicy::Manual { selected_node_id: b_selected_node_id }) => a_selected_node_id.same(b_selected_node_id),
            (SelectionPolicy::UrlTest { probe_url: a_probe_url, interval_secs: a_interval_secs, tolerance_ms: a_tolerance_ms }, SelectionPolicy::UrlTest { probe_url: b_probe_url, interval_secs: b_interval_secs, tolerance_ms: b_tolerance_ms }) => a_probe_url.same(b_probe_url) && a_interval_secs.same(b_interval_secs) && a_tolerance_ms.same(b_tolerance_ms),
            _ => false,
        }
    }
}

/// A group of nodes that routing can target.
#[derive(Clone, Debug, PartialEq, Eq)]
pub struct NodePool {
    pub id: PoolId,
    pub name: String,
    pub kind: PoolKind,
    pub sources: Vec<PoolSource>,
    pub selection: SelectionPolicy,
    pub enabled: bool,
}

/// Mathematical view of [`NodePool`].
pub ghost struct NodePoolView {
    pub id: Seq<char>,
    pub name: Seq<char>,
    pub kind: PoolKind,
    pub sources: Seq<PoolSourceView>,
    pub selection: SelectionPolicyView,
    pub enabled: bool,
}

impl DeepView for NodePool {
    type V = NodePoolView;

    open spec fn deep_view(&self) -> NodePoolView {
        NodePoolView {
            id: self.id.deep_view(),
            name: self.name.deep_view(),
            kind: self.kind.deep_view(),
            sources: self.sources.deep_view(),
            selection: self.selection.deep_view(),
            enabled: self.enabled.deep_view(),
        }
    }
}

impl View for NodePool {
    type V = NodePoolView;

    open spec fn view(&self) -> NodePoolView {
        self.deep_view()
    }
}

impl ExactClone for NodePool {
    fn exact_clone(&self) -> (r: Self) {
        let id = self.id.exact_clone();
        let name = self.name.exact_clone();
        let kind = self.kind.exact_clone();
        let sources = self.sources.exact_clone();
        let selection = self.selection.exact_clone();
        let enabled = self.enabled.exact_clone();
        NodePool { id, name, kind, sources, selection, enabled }
    }
}

impl ExactEq for NodePool {
    fn same(&self, other: &Self) -> (r: bool) {
        self.id.same(&other.id)
            && self.name.same(&other.name)
            && self.kind.same(&other.kind)
            && self.sources.same(&other.sources)
            && self.selection.same(&other.selection)
            && self.enabled.same(&other.enabled)
    }
}

/// Which traffic a routing rule matches.
#[derive(Clone, Debug, PartialEq, Eq)]
pub enum TrafficMatcher {
    Domain(Vec<String>),
    DomainSuffix(Vec<String>),
    Application(Vec<String>),
    IpCidr(Vec<String>),
    Port(Vec<u16>),
    Protocol(Vec<NetworkProtocol>),
}

/// Mathematical view of [`TrafficMatcher`].
pub ghost enum TrafficMatcherView {
    Domain(Seq<Seq<char>>),
    DomainSuffix(Seq<Seq<char>>),
    Application(Seq<Seq<char>>),
    IpCidr(Seq<Seq<char>>),
    Port(Seq<u16>),
    Protocol(Seq<NetworkProtocol>),
}

impl DeepView for TrafficMatcher {
    type V = TrafficMatcherView;

    open spec fn deep_view(&self) -> TrafficMatcherView {
        match self {
            TrafficMatcher::Domain(x0) => TrafficMatcherView::Domain(x0.deep_view()),
            TrafficMatcher::DomainSuffix(x0) => TrafficMatcherView::DomainSuffix(x0.deep_view()),
            TrafficMatcher::Application(x0) => TrafficMatcherView::Application(x0.deep_view()),
            TrafficMatcher::IpCidr(x0) => TrafficMatcherView::IpCidr(x0.deep_view()),
            TrafficMatcher::Port(x0) => TrafficMatcherView::Port(x0.deep_view()),
            TrafficMatcher::Protocol(x0) => TrafficMatcherView::Protocol(x0.deep_view()),
        }
    }
}

impl View for TrafficMatcher {
    type V = TrafficMatcherView;

    open spec fn view(&self) -> TrafficMatcherView {
        self.deep_view()
    }
}

impl ExactClone for TrafficMatcher {
    fn exact_clone(&self) -> (r: Self) {
        match self {
            TrafficMatcher::Domain(x0) => TrafficMatcher::Domain(x0.exact_clone()),
            TrafficMatcher::DomainSuffix(x0) => TrafficMatcher::DomainSuffix(x0.exact_clone()),
            TrafficMatcher::Application(x0) => TrafficMatcher::Application(x0.exact_clone()),
            TrafficMatcher::IpCidr(x0) => TrafficMatcher::IpCidr(x0.exact_clone()),
            TrafficMatcher::Port(x0) => TrafficMatcher::Port(x0.exact_clone()),
            TrafficMatcher::Protocol(x0) => TrafficMatcher::Protocol(x0.exact_clone()),
        }
    }
}

impl ExactEq for TrafficMatcher {
    fn same(&self, other: &Self) -> (r: bool) {
        match (self, other) {
            (TrafficMatcher::Domain(a0), TrafficMatcher::Domain(b0)) => a0.same(b0),
            (TrafficMatcher::DomainSuffix(a0), TrafficMatcher::DomainSuffix(b0)) => a0.same(b0),
            (TrafficMatcher::Application(a0), TrafficMatcher::Application(b0)) => a0.same(b0),
            (TrafficMatcher::IpCidr(a0), TrafficMatcher::IpCidr(b0)) => a0.same(b0),
            (TrafficMatcher::Port(a0), TrafficMatcher::Port(b0)) => a0.same(b0),
            (TrafficMatcher::Protocol(a0), TrafficMatcher::Protocol(b0)) => a0.same(b0),
            _ => false,
        }
    }
}

/// Where matched traffic goes.
#[derive(Clone, Debug, PartialEq, Eq)]
pub enum RouteTarget {
    Unconfigured,
    Pool(PoolId),
    Direct,
    Block,
}

/// Mathematical view of [`RouteTarget`].
pub ghost enum RouteTargetView {
    Unconfigured,
    Pool(Seq<char>),
    Direct,
    Block,
}

impl DeepView for RouteTarget {
    type V = RouteTargetView;

    open spec fn deep_view(&self) -> RouteTargetView {
        match self {
            RouteTarget::Unconfigured => RouteTargetView::Unconfigured,
            RouteTarget::Pool(x0) => RouteTargetView::Pool(x0.deep_view()),
            RouteTarget::Direct => RouteTargetView::Direct,
            RouteTarget::Block => RouteTargetView::Block,
        }
    }
}

impl View for RouteTarget {
    type V = RouteTargetView;

    open spec fn view(&self) -> RouteTargetView {
        self.deep_view()
    }
}

impl ExactClone for RouteTarget {
    fn exact_clone(&self) -> (r: Self) {
        match self {
            RouteTarget::Unconfigured => RouteTarget::Unconfigured,
            RouteTarget::Pool(x0) => RouteTarget::Pool(x0.exact_clone()),
            RouteTarget::Direct => RouteTarget::Direct,
            RouteTarget::Block => RouteTarget::Block,
        }
    }
}

impl ExactEq for RouteTarget {
    fn same(&self, other: &Self) -> (r: bool) {
        match (self, other) {
            (RouteTarget::Unconfigured, RouteTarget::Unconfigured) => true,
            (RouteTarget::Pool(a0), RouteTarget::Pool(b0)) => a0.same(b0),
            (RouteTarget::Direct, RouteTarget::Direct) => true,
            (RouteTarget::Block, RouteTarget::Block) => true,
            _ => false,
        }
    }
}

/// One ordered routing rule.
#[derive(Clone, Debug, PartialEq, Eq)]
pub struct RoutePolicy {
    pub id: RoutePolicyId,
    pub name: String,
    pub enabled: bool,
    pub priority: i32,
    pub matcher: TrafficMatcher,
    pub target: RouteTarget,
}

/// Mathematical view of [`RoutePolicy`].
pub ghost struct RoutePolicyView {
    pub id: Seq<char>,
    pub name: Seq<char>,
    pub enabled: bool,
    pub priority: i32,
    pub matcher: TrafficMatcherView,
    pub target: RouteTargetView,
}

impl DeepView for RoutePolicy {
    type V = RoutePolicyView;

    open spec fn deep_view(&self) -> RoutePolicyView {
        RoutePolicyView {
            id: self.id.deep_view(),
            name: self.name.deep_view(),
            enabled: self.enabled.deep_view(),
            priority: self.priority.deep_view(),
            matcher: self.matcher.deep_view(),
            target: self.target.deep_view(),
        }
    }
}

impl View for RoutePolicy {
    type V = RoutePolicyView;

    open spec fn view(&self) -> RoutePolicyView {
        self.deep_view()
    }
}

impl ExactClone for RoutePolicy {
    fn exact_clone(&self) -> (r: Self) {
        let id = self.id.exact_clone();
        let name = self.name.exact_clone();
        let enabled = self.enabled.exact_clone();
        let priority = self.priority.exact_clone();
        let matcher = self.matcher.exact_clone();
        let target = self.target.exact_clone();
        RoutePolicy { id, name, enabled, priority, matcher, target }
    }
}

impl ExactEq for RoutePolicy {
    fn same(&self, other: &Self) -> (r: bool) {
        self.id.same(&other.id)
            && self.name.same(&other.name)
            && self.enabled.same(&other.enabled)
            && self.priority.same(&other.priority)
            && self.matcher.same(&other.matcher)
            && self.target.same(&other.target)
    }
}

/// The persisted application state.
#[derive(Clone, Debug, PartialEq, Eq)]
pub struct AppState {
    pub schema_version: u32,
    pub active_subscription_id: Option<SubscriptionId>,
    pub active_configuration_generation: u64,
    pub default_target: RouteTarget,
    pub subscriptions: Vec<Subscription>,
    pub providers: Vec<Provider>,
    pub nodes: Vec<ProxyNode>,
    pub pools: Vec<NodePool>,
    pub routes: Vec<RoutePolicy>,
}

/// Mathematical view of [`AppState`].
pub ghost struct AppStateView {
    pub schema_version: u32,
    pub active_subscription_id: Option<Seq<char>>,
    pub active_configuration_generation: u64,
    pub default_target: RouteTargetView,
    pub subscriptions: Seq<SubscriptionView>,
    pub providers: Seq<ProviderView>,
    pub nodes: Seq<ProxyNodeView>,
    pub pools: Seq<NodePoolView>,
    pub routes: Seq<RoutePolicyView>,
}

impl DeepView for AppState {
    type V = AppStateView;

    open spec fn deep_view(&self) -> AppStateView {
        AppStateView {
            schema_version: self.schema_version.deep_view(),
            active_subscription_id: self.active_subscription_id.deep_view(),
            active_configuration_generation: self.active_configuration_generation.deep_view(),
            default_target: self.default_target.deep_view(),
            subscriptions: self.subscriptions.deep_view(),
            providers: self.providers.deep_view(),
            nodes: self.nodes.deep_view(),
            pools: self.pools.deep_view(),
            routes: self.routes.deep_view(),
        }
    }
}

impl View for AppState {
    type V = AppStateView;

    open spec fn view(&self) -> AppStateView {
        self.deep_view()
    }
}

impl ExactClone for AppState {
    fn exact_clone(&self) -> (r: Self) {
        let schema_version = self.schema_version.exact_clone();
        let active_subscription_id = self.active_subscription_id.exact_clone();
        let active_configuration_generation = self.active_configuration_generation.exact_clone();
        let default_target = self.default_target.exact_clone();
        let subscriptions = self.subscriptions.exact_clone();
        let providers = self.providers.exact_clone();
        let nodes = self.nodes.exact_clone();
        let pools = self.pools.exact_clone();
        let routes = self.routes.exact_clone();
        AppState { schema_version, active_subscription_id, active_configuration_generation, default_target, subscriptions, providers, nodes, pools, routes }
    }
}

impl ExactEq for AppState {
    fn same(&self, other: &Self) -> (r: bool) {
        self.schema_version.same(&other.schema_version)
            && self.active_subscription_id.same(&other.active_subscription_id)
            && self.active_configuration_generation.same(&other.active_configuration_generation)
            && self.default_target.same(&other.default_target)
            && self.subscriptions.same(&other.subscriptions)
            && self.providers.same(&other.providers)
            && self.nodes.same(&other.nodes)
            && self.pools.same(&other.pools)
            && self.routes.same(&other.routes)
    }
}

/// A pool as it is handed to the runtime: resolved members and a selection.
#[derive(Clone, Debug, PartialEq, Eq)]
pub struct RuntimePool {
    pub id: PoolId,
    pub members: Vec<NodeId>,
    pub selection: SelectionPolicy,
}

/// Mathematical view of [`RuntimePool`].
pub ghost struct RuntimePoolView {
    pub id: Seq<char>,
    pub members: Seq<Seq<char>>,
    pub selection: SelectionPolicyView,
}

impl DeepView for RuntimePool {
    type V = RuntimePoolView;

    open spec fn deep_view(&self) -> RuntimePoolView {
        RuntimePoolView {
            id: self.id.deep_view(),
            members: self.members.deep_view(),
            selection: self.selection.deep_view(),
        }
    }
}

impl View for RuntimePool {
    type V = RuntimePoolView;

    open spec fn view(&self) -> RuntimePoolView {
        self.deep_view()
    }
}

impl ExactClone for RuntimePool {
    fn exact_clone(&self) -> (r: Self) {
        let id = self.id.exact_clone();
        let members = self.members.exact_clone();
        let selection = self.selection.exact_clone();
        RuntimePool { id, members, selection }
    }
}

impl ExactEq for RuntimePool {
    fn same(&self, other: &Self) -> (r: bool) {
        self.id.same(&other.id)
            && self.members.same(&other.members)
            && self.selection.same(&other.selection)
    }
}

/// Everything the runtime needs to run the selected configuration.
#[derive(Clone, Debug, PartialEq, Eq)]
pub struct RuntimeIntent {
    pub nodes: Vec<ProxyNode>,
    pub pools: Vec<RuntimePool>,
    pub routes: Vec<RoutePolicy>,
}

/// Mathematical view of [`RuntimeIntent`].
pub ghost struct RuntimeIntentView {
    pub nodes: Seq<ProxyNodeView>,
    pub pools: Seq<RuntimePoolView>,
    pub routes: Seq<RoutePolicyView>,
}

impl DeepView for RuntimeIntent {
    type V = RuntimeIntentView;

    open spec fn deep_view(&self) -> RuntimeIntentView {
        RuntimeIntentView {
            nodes: self.nodes.deep_view(),
            pools: self.pools.deep_view(),
            routes: self.routes.deep_view(),
        }
    }
}

impl View for RuntimeIntent {
    type V = RuntimeIntentView;

    open spec fn view(&self) -> RuntimeIntentView {
        self.deep_view()
    }
}

impl ExactClone for RuntimeIntent {
    fn exact_clone(&self) -> (r: Self) {
        let nodes = self.nodes.exact_clone();
        let pools = self.pools.exact_clone();
        let routes = self.routes.exact_clone();
        RuntimeIntent { nodes, pools, routes }
    }
}

impl ExactEq for RuntimeIntent {
    fn same(&self, other: &Self) -> (r: bool) {
        self.nodes.same(&other.nodes)
            && self.pools.same(&other.pools)
            && self.routes.same(&other.routes)
    }
}


impl NodeFilter {
    pub open spec fn is_empty_filter(self) -> bool {
        &&& self.regions@.len() == 0
        &&& self.protocols@.len() == 0
        &&& self.include_keywords@.len() == 0
        &&& self.exclude_keywords@.len() == 0
        &&& self.include_node_ids@.len() == 0
        &&& self.exclude_node_ids@.len() == 0
    }
}

impl Default for NodeFilter {
    /// A filter that accepts every node of its provider.
    fn default() -> (r: Self)
        ensures
            r.is_empty_filter(),
    {
        NodeFilter {
            regions: Vec::new(),
            protocols: Vec::new(),
            include_keywords: Vec::new(),
            exclude_keywords: Vec::new(),
            include_node_ids: Vec::new(),
            exclude_node_ids: Vec::new(),
        }
    }
}

impl SubscriptionUpdatePolicy {
    /// Updates only on request.
    pub fn manual() -> (r: Self)
        ensures
            !r.allow_auto_update,
            r.interval_minutes is None,
    {
        SubscriptionUpdatePolicy { allow_auto_update: false, interval_minutes: None }
    }
}

impl AppState {
    /// The state of a fresh installation.
    pub fn empty() -> (r: Self)
        ensures
            r.schema_version == CURRENT_SCHEMA_VERSION,
            r.active_subscription_id is None,
            r.active_configuration_generation == 0,
            r.default_target is Unconfigured,
            r.subscriptions@.len() == 0,
            r.providers@.len() == 0,
            r.nodes@.len() == 0,
            r.pools@.len() == 0,
            r.routes@.len() == 0,
    {
        AppState {
            schema_version: CURRENT_SCHEMA_VERSION,
            active_subscription_id: None,
            active_configuration_generation: 0,
            default_target: RouteTarget::Unconfigured,
            subscriptions: Vec::new(),
            providers: Vec::new(),
            nodes: Vec::new(),
            pools: Vec::new(),
            routes: Vec::new(),
        }
    }
}

} // verus!
