//! Parsed subscription batches and their normalization into stored nodes.
//!
//! A node's identity is its connection material (protocol, server, port,
//! credentials, transport and TLS) within its provider; its name is not part
//! of it. The stored id of a node is `node-` followed by the hexadecimal
//! SHA-256 digest of a length-prefixed text of that identity, so an unchanged
//! node keeps its id across updates and renames.
use vstd::prelude::*;
use vstd::utf8::encode_utf8;

use crate::digest::{sha256, sha256_digest};
use crate::domain::{
    ExactClone, ExactEq, NodeId, ProtocolOptions, ProtocolOptionsView, ProviderId, ProxyNode,
    ProxyNodeView, ProxyProtocol, TlsOptions, TlsOptionsView, Transport, TransportView,
};
use crate::text::{decimal, hex_seq, push_char, push_decimal, push_hex};

verus! {

/// Wire format a subscription body was recognised as.
#[derive(Clone, Copy, Debug, PartialEq, Eq, Structural)]
pub enum SubscriptionFormat {
    UriList,
    Base64,
    Json,
    ClashYaml,
}

/// Why an entry of a subscription body was left out of a batch.
#[derive(Clone, Copy, Debug, PartialEq, Eq, Structural)]
pub enum SkippedNode {
    InvalidNode,
    UnsupportedProtocol,
}

/// A parsed node before it is assigned to a provider and given an id.
#[derive(Clone, Debug, PartialEq, Eq)]
pub struct ProxyNodeDraft {
    pub name: String,
    pub protocol: ProxyProtocol,
    pub server: String,
    pub port: u16,
    pub options: ProtocolOptions,
    pub transport: Option<Transport>,
    pub tls: Option<TlsOptions>,
}

/// Mathematical view of [`ProxyNodeDraft`].
pub ghost struct ProxyNodeDraftView {
    pub name: Seq<char>,
    pub protocol: ProxyProtocol,
    pub server: Seq<char>,
    pub port: u16,
    pub options: ProtocolOptionsView,
    pub transport: Option<TransportView>,
    pub tls: Option<TlsOptionsView>,
}

impl DeepView for ProxyNodeDraft {
    type V = ProxyNodeDraftView;

    open spec fn deep_view(&self) -> ProxyNodeDraftView {
        ProxyNodeDraftView {
            name: self.name@,
            protocol: self.protocol,
            server: self.server@,
            port: self.port,
            options: self.options.deep_view(),
            transport: self.transport.deep_view(),
            tls: self.tls.deep_view(),
        }
    }
}

impl View for ProxyNodeDraft {
    type V = ProxyNodeDraftView;

    open spec fn view(&self) -> ProxyNodeDraftView {
        self.deep_view()
    }
}

/// The outcome of parsing one subscription body.
#[derive(Clone, Debug, PartialEq, Eq)]
pub struct ParseResult {
    pub format: SubscriptionFormat,
    pub nodes: Vec<ProxyNodeDraft>,
    pub skipped: Vec<SkippedNode>,
}

/// Why a batch of drafts cannot become stored nodes.
#[derive(Clone, Copy, Debug, PartialEq, Eq, Structural)]
pub enum NormalizationError {
    /// Two drafts of the batch share their connection material.
    DuplicateNodeIdentity,
}

/// Two drafts describe the same connection (names may differ).
pub open spec fn same_connection(a: ProxyNodeDraftView, b: ProxyNodeDraftView) -> bool {
    &&& a.protocol == b.protocol
    &&& a.server == b.server
    &&& a.port == b.port
    &&& a.options == b.options
    &&& a.transport == b.transport
    &&& a.tls == b.tls
}

/// Some two drafts of the batch describe the same connection.
pub open spec fn has_duplicate_identity(drafts: Seq<ProxyNodeDraftView>) -> bool {
    exists|i: int, j: int|
        0 <= i < j < drafts.len() && #[trigger] same_connection(drafts[i], drafts[j])
}

/// A text preceded by its length in characters and a colon.
pub open spec fn field(s: Seq<char>) -> Seq<char> {
    decimal(s.len()) + seq![':'] + s
}

/// `-` for an absent text, `+` and the field otherwise.
pub open spec fn opt_field(o: Option<Seq<char>>) -> Seq<char> {
    match o {
        None => seq!['-'],
        Some(s) => seq!['+'] + field(s),
    }
}

/// Position of a protocol in the declaration order of [`ProxyProtocol`].
pub open spec fn protocol_code(p: ProxyProtocol) -> nat {
    match p {
        ProxyProtocol::Socks => 0,
        ProxyProtocol::Http => 1,
        ProxyProtocol::Shadowsocks => 2,
        ProxyProtocol::Vmess => 3,
        ProxyProtocol::Vless => 4,
        ProxyProtocol::Trojan => 5,
        ProxyProtocol::WireGuard => 6,
        ProxyProtocol::Hysteria => 7,
        ProxyProtocol::Hysteria2 => 8,
        ProxyProtocol::Tuic => 9,
        ProxyProtocol::ShadowTls => 10,
        ProxyProtocol::Ssh => 11,
        ProxyProtocol::Naive => 12,
        ProxyProtocol::AnyTls => 13,
        ProxyProtocol::Snell => 14,
    }
}

/// Identity text of protocol credentials.
pub open spec fn options_text(o: ProtocolOptionsView) -> Seq<char> {
    match o {
        ProtocolOptionsView::Shadowsocks { method, password } => seq!['s'] + field(method) + field(
            password,
        ),
        ProtocolOptionsView::Vless { uuid, flow } => seq!['l'] + field(uuid) + opt_field(flow),
        ProtocolOptionsView::Vmess { uuid } => seq!['m'] + field(uuid),
        ProtocolOptionsView::Trojan { password } => seq!['t'] + field(password),
        ProtocolOptionsView::Credentials { username, password } => seq!['c'] + opt_field(username)
            + opt_field(password),
    }
}

/// Identity text of a stream transport.
pub open spec fn transport_text(t: Option<TransportView>) -> Seq<char> {
    match t {
        None => seq!['-'],
        Some(TransportView::Tcp) => seq!['T'],
        Some(TransportView::WebSocket { path }) => seq!['W'] + field(path),
        Some(TransportView::Grpc { service_name }) => seq!['G'] + field(service_name),
    }
}

/// Identity text of TLS settings.
pub open spec fn tls_text(t: Option<TlsOptionsView>) -> Seq<char> {
    match t {
        None => seq!['-'],
        Some(tls) => seq!['+'] + opt_field(tls.server_name) + seq![
            if tls.insecure {
                '1'
            } else {
                '0'
            },
        ],
    }
}

/// Length-prefixed text of a draft's identity within a provider.
pub open spec fn identity_text(provider: Seq<char>, d: ProxyNodeDraftView) -> Seq<char> {
    field(provider) + decimal(protocol_code(d.protocol)) + seq![':'] + field(d.server) + decimal(
        d.port as nat,
    ) + seq![':'] + options_text(d.options) + transport_text(d.transport) + tls_text(d.tls)
}

/// Stored id of a draft within a provider.
pub open spec fn node_id_for(provider: Seq<char>, d: ProxyNodeDraftView) -> Seq<char> {
    seq!['n', 'o', 'd', 'e', '-'] + hex_seq(sha256_digest(encode_utf8(identity_text(provider, d))))
}

/// The stored node a draft becomes within a provider.
pub open spec fn normalized_node(provider: Seq<char>, d: ProxyNodeDraftView) -> ProxyNodeView {
    ProxyNodeView {
        id: node_id_for(provider, d),
        provider_id: provider,
        name: d.name,
        protocol: d.protocol,
        server: d.server,
        port: d.port,
        options: d.options,
        transport: d.transport,
        tls: d.tls,
    }
}

/// The stored nodes a batch becomes, in batch order.
pub open spec fn normalized_nodes(provider: Seq<char>, drafts: Seq<ProxyNodeDraftView>) -> Seq<
    ProxyNodeView,
> {
    Seq::new(drafts.len(), |i: int| normalized_node(provider, drafts[i]))
}

fn push_field(out: &mut String, s: &String)
    ensures
        final(out)@ == old(out)@ + field(s@),
{
    let ghost start = out@;
    let n = s.as_str().unicode_len();
    push_decimal(out, n as u64);
    push_char(out, ':');
    out.append(s.as_str());
    proof {
        assert(out@ =~= start + field(s@));
    }
}

fn push_opt_field(out: &mut String, o: &Option<String>)
    ensures
        final(out)@ == old(out)@ + opt_field(o.deep_view()),
{
    let ghost start = out@;
    match o {
        None => {
            push_char(out, '-');
            proof {
                assert(out@ =~= start + opt_field(o.deep_view()));
            }
        },
        Some(s) => {
            push_char(out, '+');
            push_field(out, s);
            proof {
                assert(out@ =~= start + opt_field(o.deep_view()));
            }
        },
    }
}

fn protocol_code_of(p: ProxyProtocol) -> (r: u64)
    ensures
        r == protocol_code(p),
{
    match p {
        ProxyProtocol::Socks => 0,
        ProxyProtocol::Http => 1,
        ProxyProtocol::Shadowsocks => 2,
        ProxyProtocol::Vmess => 3,
        ProxyProtocol::Vless => 4,
        ProxyProtocol::Trojan => 5,
        ProxyProtocol::WireGuard => 6,
        ProxyProtocol::Hysteria => 7,
        ProxyProtocol::Hysteria2 => 8,
        ProxyProtocol::Tuic => 9,
        ProxyProtocol::ShadowTls => 10,
        ProxyProtocol::Ssh => 11,
        ProxyProtocol::Naive => 12,
        ProxyProtocol::AnyTls => 13,
        ProxyProtocol::Snell => 14,
    }
}

fn push_options(out: &mut String, o: &ProtocolOptions)
    ensures
        final(out)@ == old(out)@ + options_text(o.deep_view()),
{
    let ghost start = out@;
    match o {
        ProtocolOptions::Shadowsocks { method, password } => {
            push_char(out, 's');
            push_field(out, method);
            push_field(out, password);
        },
        ProtocolOptions::Vless { uuid, flow } => {
            push_char(out, 'l');
            push_field(out, uuid);
            push_opt_field(out, flow);
        },
        ProtocolOptions::Vmess { uuid } => {
            push_char(out, 'm');
            push_field(out, uuid);
        },
        ProtocolOptions::Trojan { password } => {
            push_char(out, 't');
            push_field(out, password);
        },
        ProtocolOptions::Credentials { username, password } => {
            push_char(out, 'c');
            push_opt_field(out, username);
            push_opt_field(out, password);
        },
    }
    proof {
        assert(out@ =~= start + options_text(o.deep_view()));
    }
}

fn push_transport(out: &mut String, t: &Option<Transport>)
    ensures
        final(out)@ == old(out)@ + transport_text(t.deep_view()),
{
    let ghost start = out@;
    match t {
        None => {
            push_char(out, '-');
        },
        Some(Transport::Tcp) => {
            push_char(out, 'T');
        },
        Some(Transport::WebSocket { path }) => {
            push_char(out, 'W');
            push_field(out, path);
        },
        Some(Transport::Grpc { service_name }) => {
            push_char(out, 'G');
            push_field(out, service_name);
        },
    }
    proof {
        assert(out@ =~= start + transport_text(t.deep_view()));
    }
}

fn push_tls(out: &mut String, t: &Option<TlsOptions>)
    ensures
        final(out)@ == old(out)@ + tls_text(t.deep_view()),
{
    let ghost start = out@;
    match t {
        None => {
            push_char(out, '-');
        },
        Some(tls) => {
            push_char(out, '+');
            push_opt_field(out, &tls.server_name);
            if tls.insecure {
                push_char(out, '1');
            } else {
                push_char(out, '0');
            }
        },
    }
    proof {
        assert(out@ =~= start + tls_text(t.deep_view()));
    }
}

/// The length-prefixed identity text of `draft` within `provider_id`.
pub fn identity_text_of(provider_id: &ProviderId, draft: &ProxyNodeDraft) -> (r: String)
    ensures
        r@ == identity_text(provider_id@, draft.deep_view()),
{
    let mut out = String::new();
    push_field(&mut out, &provider_id.0);
    push_decimal(&mut out, protocol_code_of(draft.protocol));
    push_char(&mut out, ':');
    push_field(&mut out, &draft.server);
    push_decimal(&mut out, draft.port as u64);
    push_char(&mut out, ':');
    push_options(&mut out, &draft.options);
    push_transport(&mut out, &draft.transport);
    push_tls(&mut out, &draft.tls);
    proof {
        assert(out@ =~= identity_text(provider_id@, draft.deep_view()));
    }
    out
}

/// The stored id of `draft` within `provider_id`.
pub fn node_id_of(provider_id: &ProviderId, draft: &ProxyNodeDraft) -> (r: NodeId)
    ensures
        r@ == node_id_for(provider_id@, draft.deep_view()),
{
    let identity = identity_text_of(provider_id, draft);
    let digest = sha256(identity.as_str().as_bytes());
    let mut id = String::new();
    push_char(&mut id, 'n');
    push_char(&mut id, 'o');
    push_char(&mut id, 'd');
    push_char(&mut id, 'e');
    push_char(&mut id, '-');
    push_hex(&mut id, &digest);
    proof {
        assert(id@ =~= node_id_for(provider_id@, draft.deep_view()));
    }
    NodeId(id)
}

fn same_connection_exec(a: &ProxyNodeDraft, b: &ProxyNodeDraft) -> (r: bool)
    ensures
        r == same_connection(a.deep_view(), b.deep_view()),
{
    a.protocol == b.protocol && a.server.same(&b.server) && a.port == b.port && a.options.same(
        &b.options,
    ) && a.transport.same(&b.transport) && a.tls.same(&b.tls)
}

fn find_duplicate(drafts: &Vec<ProxyNodeDraft>) -> (r: bool)
    ensures
        r == has_duplicate_identity(drafts.deep_view()),
{
    let ghost ds = drafts.deep_view();
    let mut j: usize = 0;
    while j < drafts.len()
        invariant
            j <= drafts.len(),
            ds == drafts.deep_view(),
            forall|a: int, b: int| 0 <= a < b < j ==> !#[trigger] same_connection(ds[a], ds[b]),
        decreases drafts.len() - j,
    {
        let mut i: usize = 0;
        while i < j
            invariant
                i <= j < drafts.len(),
                ds == drafts.deep_view(),
                forall|a: int, b: int| 0 <= a < b < j ==> !#[trigger] same_connection(ds[a], ds[b]),
                forall|a: int| 0 <= a < i ==> !#[trigger] same_connection(ds[a], ds[j as int]),
            decreases j - i,
        {
            if same_connection_exec(&drafts[i], &drafts[j]) {
                proof {
                    assert(same_connection(ds[i as int], ds[j as int]));
                }
                return true;
            }
            i = i + 1;
        }
        j = j + 1;
    }
    false
}

/// Assigns a batch of drafts to `provider_id`: each draft becomes a node whose
/// id is derived from its identity, in batch order. A batch in which two
/// drafts share their connection material is refused.
pub fn normalize_nodes(provider_id: ProviderId, drafts: Vec<ProxyNodeDraft>) -> (r: Result<
    Vec<ProxyNode>,
    NormalizationError,
>)
    ensures
        r is Err <==> has_duplicate_identity(drafts.deep_view()),
        r matches Ok(nodes) ==> nodes.deep_view() == normalized_nodes(
            provider_id@,
            drafts.deep_view(),
        ),
{
    if find_duplicate(&drafts) {
        return Err(NormalizationError::DuplicateNodeIdentity);
    }
    let ghost ds = drafts.deep_view();
    let mut nodes: Vec<ProxyNode> = Vec::new();
    let mut i: usize = 0;
    while i < drafts.len()
        invariant
            i <= drafts.len(),
            ds == drafts.deep_view(),
            nodes.deep_view() =~= normalized_nodes(provider_id@, ds.take(i as int)),
        decreases drafts.len() - i,
    {
        let draft = &drafts[i];
        let node = ProxyNode {
            id: node_id_of(&provider_id, draft),
            provider_id: provider_id.exact_clone(),
            name: draft.name.exact_clone(),
            protocol: draft.protocol,
            server: draft.server.exact_clone(),
            port: draft.port,
            options: draft.options.exact_clone(),
            transport: draft.transport.exact_clone(),
            tls: draft.tls.exact_clone(),
        };
        let ghost before = nodes.deep_view();
        proof {
            assert(node.deep_view() == normalized_node(provider_id@, ds[i as int]));
        }
        nodes.push(node);
        proof {
            assert(nodes.deep_view() =~= before.push(node.deep_view()));
            assert(ds.take(i + 1) =~= ds.take(i as int).push(ds[i as int]));
        }
        i = i + 1;
    }
    proof {
        assert(ds.take(drafts.len() as int) =~= ds);
    }
    Ok(nodes)
}


/// The drafts with each connection kept once: its first occurrence, with
/// that entry's name, in the original order.
pub open spec fn first_connections(drafts: Seq<ProxyNodeDraftView>) -> Seq<ProxyNodeDraftView>
    decreases drafts.len(),
{
    if drafts.len() == 0 {
        Seq::empty()
    } else {
        let init = drafts.drop_last();
        let kept = first_connections(init);
        if exists|j: int| 0 <= j < init.len() && same_connection(init[j], drafts.last()) {
            kept
        } else {
            kept.push(drafts.last())
        }
    }
}

/// Whether a draft before position `i` has the same connection as draft `i`.
fn seen_before(drafts: &Vec<ProxyNodeDraft>, i: usize) -> (r: bool)
    requires
        i < drafts.len(),
    ensures
        r == exists|j: int| 0 <= j < i && same_connection(drafts.deep_view()[j], drafts.deep_view()[i as int]),
{
    let mut j: usize = 0;
    while j < i
        invariant
            j <= i,
            i < drafts.len(),
            forall|k: int| 0 <= k < j ==> !same_connection(drafts.deep_view()[k], drafts.deep_view()[i as int]),
        decreases i - j,
    {
        proof {
            assert(drafts.deep_view()[j as int] == drafts[j as int].deep_view());
            assert(drafts.deep_view()[i as int] == drafts[i as int].deep_view());
        }
        if same_connection_exec(&drafts[j], &drafts[i]) {
            return true;
        }
        j = j + 1;
    }
    false
}

/// Merges drafts that describe the same connection: the first keeps its
/// name and place, later ones are dropped. Skipped entries and the format
/// stay as they are.
pub fn deduplicate_parsed_nodes(parsed: &mut ParseResult)
    ensures
        final(parsed).nodes.deep_view() == first_connections(old(parsed).nodes.deep_view()),
        final(parsed).skipped@ == old(parsed).skipped@,
        final(parsed).format == old(parsed).format,
{
    let mut drafts: Vec<ProxyNodeDraft> = Vec::new();
    std::mem::swap(&mut drafts, &mut parsed.nodes);
    let ghost all = drafts.deep_view();
    let mut kept: Vec<ProxyNodeDraft> = Vec::new();
    let mut i: usize = 0;
    while i < drafts.len()
        invariant
            i <= drafts.len(),
            all == drafts.deep_view(),
            kept.deep_view() == first_connections(all.take(i as int)),
        decreases drafts.len() - i,
    {
        let seen = seen_before(&drafts, i);
        proof {
            let t = all.take(i + 1);
            assert(t.drop_last() =~= all.take(i as int));
            assert(t.last() == all[i as int]);
            assert forall|j: int| 0 <= j < i implies t.drop_last()[j] == all[j] by {}
        }
        if !seen {
            let ghost before = kept.deep_view();
            let d = drafts[i].clone_draft();
            kept.push(d);
            proof {
                assert(kept.deep_view() =~= before.push(d.deep_view()));
            }
        }
        i = i + 1;
    }
    proof {
        assert(all.take(drafts.len() as int) =~= all);
    }
    parsed.nodes = kept;
}

impl ProxyNodeDraft {
    /// A copy equal in every field.
    pub fn clone_draft(&self) -> (r: Self)
        ensures
            r.deep_view() == self.deep_view(),
    {
        ProxyNodeDraft {
            name: self.name.exact_clone(),
            protocol: self.protocol,
            server: self.server.exact_clone(),
            port: self.port,
            options: self.options.exact_clone(),
            transport: self.transport.exact_clone(),
            tls: self.tls.exact_clone(),
        }
    }
}


/// Every kept draft is one of the drafts.
proof fn lemma_first_connections_members(drafts: Seq<ProxyNodeDraftView>)
    ensures
        forall|k: int| 0 <= k < first_connections(drafts).len() ==> exists|j: int| 0 <= j < drafts.len()
            && #[trigger] first_connections(drafts)[k] == drafts[j],
    decreases drafts.len(),
{
    if drafts.len() > 0 {
        let init = drafts.drop_last();
        lemma_first_connections_members(init);
        let kept = first_connections(init);
        assert forall|k: int| 0 <= k < first_connections(drafts).len() implies exists|j: int| 0 <= j < drafts.len()
            && #[trigger] first_connections(drafts)[k] == drafts[j] by {
            if k < kept.len() {
                assert(first_connections(drafts)[k] == kept[k]);
                let j = choose|j: int| 0 <= j < init.len() && kept[k] == init[j];
                assert(drafts[j] == init[j]);
            } else {
                assert(first_connections(drafts)[k] == drafts[drafts.len() - 1]);
            }
        }
    }
}

/// Merging duplicate connections leaves a batch without duplicates, so
/// normalizing it cannot fail on a duplicate identity.
pub proof fn law_deduplicated_batch_has_no_duplicates(drafts: Seq<ProxyNodeDraftView>)
    ensures
        !has_duplicate_identity(first_connections(drafts)),
    decreases drafts.len(),
{
    if drafts.len() > 0 {
        let init = drafts.drop_last();
        law_deduplicated_batch_has_no_duplicates(init);
        lemma_first_connections_members(init);
        let kept = first_connections(init);
        let last = drafts.last();
        if !(exists|j: int| 0 <= j < init.len() && same_connection(init[j], last)) {
            let r = kept.push(last);
            assert(first_connections(drafts) == r);
            assert forall|a: int, b: int| 0 <= a < b < r.len() implies !#[trigger] same_connection(r[a], r[b]) by {
                if b == r.len() - 1 {
                    let j = choose|j: int| 0 <= j < init.len() && kept[a] == init[j];
                    assert(r[a] == init[j]);
                    assert(!same_connection(init[j], last));
                } else {
                    assert(r[a] == kept[a] && r[b] == kept[b]);
                    assert(!same_connection(kept[a], kept[b]));
                }
            }
        }
    }
}

} // verus!
