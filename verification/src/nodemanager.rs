//! The registry of peer nodes: who is known, what to ask of them, and what to
//! keep of their answers.

use crate::block::{chain_view, BlockView, Chain};
use vstd::prelude::*;
use vstd::std_specs::cmp::PartialEqSpecImpl;

verus! {

/// A node of the network, known by its address (`host:port`).
#[derive(Debug, Hash)]
pub struct Node {
    address: String,
}

impl View for Node {
    type V = Seq<char>;

    /// The node's address.
    closed spec fn view(&self) -> Seq<char> {
        self.address@
    }
}

/// The address at which the node `address` takes announcements of peers.
pub open spec fn register_uri_of(address: Seq<char>) -> Seq<char> {
    "http://"@ + address + "/node/register"@
}

/// The address at which the node `address` serves its chain.
pub open spec fn chain_uri_of(address: Seq<char>) -> Seq<char> {
    "http://"@ + address + "/chain"@
}

impl Node {
    pub fn new(address: String) -> (node: Node)
        ensures
            node@ == address@,
    {
        Node { address }
    }

    /// The node's address.
    pub fn address(&self) -> (address: &str)
        ensures
            address@ == self@,
    {
        self.address.as_str()
    }

    /// Where to announce a peer to this node.
    pub fn register_uri(&self) -> (uri: String)
        ensures
            uri@ == register_uri_of(self@),
    {
        let mut uri = String::from_str("http://");
        uri.append(self.address.as_str());
        uri.append("/node/register");
        uri
    }

    /// Where to fetch this node's chain.
    pub fn chain_uri(&self) -> (uri: String)
        ensures
            uri@ == chain_uri_of(self@),
    {
        let mut uri = String::from_str("http://");
        uri.append(self.address.as_str());
        uri.append("/chain");
        uri
    }
}

impl Clone for Node {
    fn clone(&self) -> (copy: Self)
        ensures
            copy@ == self@,
    {
        Node { address: self.address.clone() }
    }
}

impl PartialEq for Node {
    /// Two nodes are the same node when their addresses are equal.
    fn eq(&self, other: &Node) -> (same: bool) {
        self.address == other.address
    }
}

impl PartialEqSpecImpl for Node {
    open spec fn obeys_eq_spec() -> bool {
        true
    }

    open spec fn eq_spec(&self, other: &Node) -> bool {
        self@ == other@
    }
}

impl Eq for Node {}

/// The addresses of a sequence of nodes, in order.
pub open spec fn node_views(nodes: Seq<Node>) -> Seq<Seq<char>> {
    nodes.map_values(|n: Node| n@)
}

/// Why the announcement to a peer failed.
#[derive(Debug)]
pub struct HandshakeError {
    pub reason: String,
}

/// The registry as the specifications see it: the node's own address and the
/// addresses of its peers, in the order in which they were registered. The
/// node is no peer of itself.
#[verifier::ext_equal]
pub struct RegistryView {
    pub local: Seq<char>,
    pub peers: Seq<Seq<char>>,
}

impl RegistryView {
    /// Whether `address` is the address of a registered peer.
    pub open spec fn knows(self, address: Seq<char>) -> bool {
        self.peers.contains(address)
    }

    /// The registry with `address` added as its newest peer.
    pub open spec fn with_peer(self, address: Seq<char>) -> RegistryView {
        RegistryView { local: self.local, peers: self.peers.push(address) }
    }

    /// The registered peers other than the node itself.
    pub open spec fn others(self) -> Seq<Seq<char>> {
        self.peers.filter(|address: Seq<char>| address != self.local)
    }

    /// Whether registering `address` calls for an announcement: it is neither
    /// the node's own address nor that of a registered peer.
    pub open spec fn is_new(self, address: Seq<char>) -> bool {
        address != self.local && !self.knows(address)
    }

    /// The registry after a registration of `remote`, where `announced` tells
    /// whether the announcement to `remote` went through. The node's own
    /// address is never added.
    pub open spec fn registered(self, remote: Seq<char>, announced: bool) -> RegistryView {
        if self.is_new(remote) && announced {
            self.with_peer(remote)
        } else {
            self
        }
    }
}

/// In a registry that does not hold the node's own address, the peers other
/// than the node itself are all the peers.
pub proof fn lemma_others_are_the_peers(registry: RegistryView)
    requires
        !registry.knows(registry.local),
    ensures
        registry.others() == registry.peers,
    decreases registry.peers.len(),
{
    reveal(Seq::filter);
    if registry.peers.len() > 0 {
        let shorter = RegistryView { local: registry.local, peers: registry.peers.drop_last() };
        assert forall|i: int| 0 <= i < shorter.peers.len() implies shorter.peers[i]
            != shorter.local by {
            assert(registry.peers[i] == shorter.peers[i]);
        }
        lemma_others_are_the_peers(shorter);
        assert(registry.peers.last() != registry.local);
        assert(registry.peers.drop_last().push(registry.peers.last()) =~= registry.peers);
    }
}

/// What a registration of `remote` reports: `Ok(false)` for the node's own
/// address and for a peer that is known already, whatever the announcement
/// did; else `Ok(true)` once the announcement went through, and its error
/// where it failed.
pub open spec fn registration_outcome(
    registry: RegistryView,
    remote: Seq<char>,
    announced: Result<(), HandshakeError>,
) -> Result<bool, HandshakeError> {
    if !registry.is_new(remote) {
        Ok(false)
    } else {
        match announced {
            Ok(_) => Ok(true),
            Err(error) => Err(error),
        }
    }
}

/// The answers of the peers that were asked for their chains, one for each
/// peer: the chain that came back, or `None` where none did.
pub open spec fn response_views(responses: Seq<Option<Chain>>) -> Seq<Option<Seq<BlockView>>> {
    responses.map_values(
        |response: Option<Chain>|
            match response {
                Some(chain) => Some(chain_view(chain@)),
                None => None,
            },
    )
}

/// The chains among `responses`, in their order; the peers that gave none
/// are passed over.
pub open spec fn answered(responses: Seq<Option<Seq<BlockView>>>) -> Seq<Seq<BlockView>> {
    responses.filter_map(|response: Option<Seq<BlockView>>| response)
}

/// The views of a sequence of chains, in order.
pub open spec fn chain_views(chains: Seq<Chain>) -> Seq<Seq<BlockView>> {
    chains.map_values(|chain: Chain| chain_view(chain@))
}

/// The peers that a node knows. No address is registered twice, and the
/// node's own address is not registered at all.
pub struct P2PNodeManager {
    local: Node,
    nodes: Vec<Node>,
}

impl View for P2PNodeManager {
    type V = RegistryView;

    closed spec fn view(&self) -> RegistryView {
        RegistryView { local: self.local@, peers: node_views(self.nodes@) }
    }
}

impl P2PNodeManager {
    /// The registry's invariant: no address is registered twice, and the
    /// node's own address is not among the peers.
    pub open spec fn wf(&self) -> bool {
        self@.peers.no_duplicates() && !self@.peers.contains(self@.local)
    }

    /// A registry for the node `local`, without peers.
    pub fn new(local: Node) -> (manager: P2PNodeManager)
        ensures
            manager@ == (RegistryView { local: local@, peers: Seq::empty() }),
            manager.wf(),
    {
        let manager = P2PNodeManager { local, nodes: Vec::new() };
        manager
    }

    /// The node that this registry belongs to.
    pub fn local(&self) -> (local: &Node)
        ensures
            local@ == self@.local,
    {
        &self.local
    }

    /// Whether `remote` is registered.
    pub fn is_registered(&self, remote: &Node) -> (known: bool)
        ensures
            known == self@.knows(remote@),
    {
        let mut i: usize = 0;
        while i < self.nodes.len()
            invariant
                i <= self.nodes.len(),
                forall|j: int| 0 <= j < i ==> self@.peers[j] != remote@,
            decreases self.nodes.len() - i,
        {
            if self.nodes[i] == *remote {
                assert(self@.peers[i as int] == remote@);
                return true;
            }
            i += 1;
        }
        false
    }

    /// Whether registering `remote` calls for an announcement: it is neither
    /// this node itself nor a registered peer.
    pub fn is_new(&self, remote: &Node) -> (new: bool)
        ensures
            new == self@.is_new(remote@),
    {
        *remote != self.local && !self.is_registered(remote)
    }

    /// The request that registering `remote` calls for: where to announce
    /// this node to `remote`, or `None` where nothing is to be sent, because
    /// `remote` is this node itself or is registered already.
    pub fn registration_request(&self, remote: &Node) -> (request: Option<String>)
        ensures
            request is None <==> (self@.knows(remote@) || remote@ == self@.local),
            request matches Some(uri) ==> uri@ == register_uri_of(remote@),
    {
        if self.is_new(remote) {
            Some(remote.register_uri())
        } else {
            None
        }
    }

    /// Registers `remote`, given in `announced` how the announcement of this
    /// node to `remote` went. For the node's own address and for a peer that
    /// is registered already nothing changes, and `announced` is not read; a
    /// new peer is added if and only if the announcement went through, else
    /// its error is handed on.
    pub fn add_node(
        &mut self,
        remote: Node,
        announced: Result<(), HandshakeError>,
    ) -> (outcome: Result<bool, HandshakeError>)
        requires
            old(self).wf(),
        ensures
            final(self)@ == old(self)@.registered(remote@, announced is Ok),
            outcome == registration_outcome(old(self)@, remote@, announced),
            final(self).wf(),
    {
        if !self.is_new(&remote) {
            Ok(false)
        } else {
            match announced {
                Ok(_) => {
                    self.nodes.push(remote);
                    Ok(true)
                },
                Err(error) => Err(error),
            }
        }
    }
}

impl P2PNodeManager {
    /// The registered peers other than this node itself, in the order of
    /// their registration. In a registry that keeps its invariant these are
    /// all the peers.
    pub fn get_nodes(&self) -> (nodes: Vec<Node>)
        ensures
            node_views(nodes@) == self@.others(),
            self.wf() ==> node_views(nodes@) == self@.peers,
    {
        let ghost is_other = |address: Seq<char>| address != self@.local;
        let mut nodes: Vec<Node> = Vec::new();
        let mut i: usize = 0;
        proof {
            reveal(Seq::filter);
        }
        while i < self.nodes.len()
            invariant
                i <= self.nodes.len(),
                is_other == |address: Seq<char>| address != self@.local,
                node_views(nodes@) == self@.peers.take(i as int).filter(is_other),
            decreases self.nodes.len() - i,
        {
            proof {
                reveal(Seq::filter);
                assert(self@.peers.take(i + 1).drop_last() =~= self@.peers.take(i as int));
            }
            if self.nodes[i] != self.local {
                nodes.push(self.nodes[i].clone());
            }
            i += 1;
        }
        proof {
            assert(self@.peers.take(i as int) =~= self@.peers);
            if self.wf() {
                lemma_others_are_the_peers(self@);
            }
        }
        nodes
    }

    /// Where to fetch the chain of each registered peer, in the order of
    /// their registration. The node itself is no peer, so its own chain is
    /// not asked for.
    pub fn chain_requests(&self) -> (uris: Vec<String>)
        ensures
            uris@.len() == self@.peers.len(),
            forall|i: int|
                0 <= i < uris@.len() ==> (#[trigger] uris@[i])@ == chain_uri_of(self@.peers[i]),
    {
        let mut uris: Vec<String> = Vec::new();
        let mut i: usize = 0;
        while i < self.nodes.len()
            invariant
                i <= self.nodes.len(),
                uris@.len() == i,
                forall|j: int|
                    0 <= j < i ==> (#[trigger] uris@[j])@ == chain_uri_of(self@.peers[j]),
            decreases self.nodes.len() - i,
        {
            uris.push(self.nodes[i].chain_uri());
            i += 1;
        }
        uris
    }

    /// Keeps, of the answers of the peers, the chains that came back, in
    /// their order. A peer that gave no chain is passed over in silence.
    pub fn get_chains(&self, responses: Vec<Option<Chain>>) -> (chains: Vec<Chain>)
        ensures
            chain_views(chains@) == answered(response_views(responses@)),
    {
        let ghost all = response_views(responses@);
        let ghost keep = |response: Option<Seq<BlockView>>| response;
        let mut chains: Vec<Chain> = Vec::new();
        for response in it: responses
            invariant
                all == response_views(responses@),
                keep == |response: Option<Seq<BlockView>>| response,
                chain_views(chains@) == all.take(it.index() as int).filter_map(keep),
        {
            proof {
                all.lemma_filter_map_take_succ(keep, it.index() as int);
            }
            if let Some(chain) = response {
                chains.push(chain);
            }
        }
        assert(all.take(all.len() as int) =~= all);
        chains
    }
}

/// What the ledger asks of a registry of peers.
pub trait NodeManager {
    /// The registry as the specifications see it.
    spec fn registry(&self) -> RegistryView;

    /// The invariant that the registry keeps.
    spec fn valid(&self) -> bool;

    /// Registers `remote`, given in `announced` how the announcement of this
    /// node to `remote` went.
    fn add_node(
        &mut self,
        remote: Node,
        announced: Result<(), HandshakeError>,
    ) -> (outcome: Result<bool, HandshakeError>)
        requires
            old(self).valid(),
        ensures
            final(self).valid(),
            final(self).registry() == old(self).registry().registered(remote@, announced is Ok),
            outcome == registration_outcome(old(self).registry(), remote@, announced),
    ;

    /// The registered peers other than this node itself.
    fn get_nodes(&self) -> (nodes: Vec<Node>)
        ensures
            node_views(nodes@) == self.registry().others(),
    ;

    /// The chains among the answers of the peers.
    fn get_chains(&self, responses: Vec<Option<Chain>>) -> (chains: Vec<Chain>)
        ensures
            chain_views(chains@) == answered(response_views(responses@)),
    ;
}

impl NodeManager for P2PNodeManager {
    open spec fn registry(&self) -> RegistryView {
        self@
    }

    open spec fn valid(&self) -> bool {
        self.wf()
    }

    fn add_node(
        &mut self,
        remote: Node,
        announced: Result<(), HandshakeError>,
    ) -> (outcome: Result<bool, HandshakeError>) {
        P2PNodeManager::add_node(self, remote, announced)
    }

    fn get_nodes(&self) -> (nodes: Vec<Node>) {
        P2PNodeManager::get_nodes(self)
    }

    fn get_chains(&self, responses: Vec<Option<Chain>>) -> (chains: Vec<Chain>) {
        P2PNodeManager::get_chains(self, responses)
    }
}

} // verus!
