use crate::block::{hash_of, meets_target, unix_seconds, Block, ClockError, DIFFICULTY};
use crate::chain::{append_check, chain_valid, Chain, ChainError};
use crate::message::{clone_strings, string_views, Message, MessageData};
use vstd::prelude::*;

verus! {

/// What the node asks its surroundings to do after a step.
pub enum Action {
    /// Deliver `message` to the peer at `to`.
    Send { to: String, message: Message },
    /// Deliver `message` to every known peer.
    Broadcast { message: Message },
    /// Show a chat line from `from` to the local user.
    Show { from: String, text: String },
    /// Tell the node at `to` that what it sent was refused, and why.
    Refuse { to: String, error: ChainError },
}

/// The peer list after adding `p`: unchanged when `p` is already known.
pub open spec fn with_peer(ps: Seq<Seq<char>>, p: Seq<char>) -> Seq<Seq<char>> {
    if ps.contains(p) {
        ps
    } else {
        ps.push(p)
    }
}

/// The peer list after adding each of `new` in turn.
pub open spec fn merge_peers(ps: Seq<Seq<char>>, new: Seq<Seq<char>>) -> Seq<Seq<char>>
    decreases new.len(),
{
    if new.len() == 0 {
        ps
    } else {
        with_peer(merge_peers(ps, new.drop_last()), new.last())
    }
}

/// `b` is the mined successor of `tail` stamped `timestamp` with payload
/// `data`, carrying the least nonce whose hash meets the target.
pub open spec fn mined_successor(tail: Block, timestamp: u64, data: Seq<char>, b: Block) -> bool {
    &&& b.index == tail.index + 1
    &&& b.timestamp == timestamp
    &&& b.data@ == data
    &&& b.prev_hash@ == tail.hash@
    &&& b.is_sealed()
    &&& b.is_mined()
    &&& forall|n: u64|
        n < b.nonce ==> !meets_target(
            #[trigger] hash_of(b.index, timestamp, n, data, tail.hash@),
            DIFFICULTY as nat,
        )
}

/// `a` sends a message with payload `payload` from `from` to `to`.
pub open spec fn is_send(a: Action, to: Seq<char>, from: Seq<char>, payload: MessageData) -> bool {
    a matches Action::Send { to: t, message: m } && t@ == to && m.sender@ == from && m.payload
        == payload
}

/// Where the node stands in pulling a chain from a peer.
pub enum SyncState {
    /// No chain has been asked for, or the last request was answered or
    /// given up on.
    Idle,
    /// A chain was asked of `peer` and no reply has come yet.
    AwaitingReply { peer: String },
}

/// A node's state: its own address, the peers it knows, its chain, and
/// where it stands in a sync.
pub struct Node {
    local_addr: String,
    peers: Vec<String>,
    chain: Chain,
    sync: SyncState,
}

impl Node {
    /// This node's own address.
    pub closed spec fn addr(&self) -> Seq<char> {
        self.local_addr@
    }

    /// The known peers, in the order they became known.
    pub closed spec fn peer_list(&self) -> Seq<String> {
        self.peers@
    }

    /// The addresses of the known peers.
    pub open spec fn peer_addrs(&self) -> Seq<Seq<char>> {
        string_views(self.peer_list())
    }

    /// The blocks of the node's chain.
    pub closed spec fn chain_blocks(&self) -> Seq<Block> {
        self.chain@
    }

    /// Where the node stands in a sync.
    pub closed spec fn sync_state(&self) -> SyncState {
        self.sync
    }

    /// The chain is valid and no peer is listed twice.
    pub open spec fn wf(&self) -> bool {
        chain_valid(self.chain_blocks()) && self.peer_addrs().no_duplicates()
    }

    /// A node at `local_addr` with no peers, holding `chain`.
    pub fn new(local_addr: String, chain: Chain) -> (r: Node)
        requires
            chain.wf(),
        ensures
            r.wf(),
            r.addr() == local_addr@,
            r.peer_addrs().len() == 0,
            r.chain_blocks() == chain@,
            r.sync_state() is Idle,
    {
        let r = Node { local_addr, peers: Vec::new(), chain, sync: SyncState::Idle };
        assert(r.peer_addrs() =~= Seq::<Seq<char>>::empty());
        r
    }

    /// This node's own address.
    pub fn get_local_addr(&self) -> (r: String)
        ensures
            r@ == self.addr(),
    {
        self.local_addr.clone()
    }

    /// The known peers.
    pub fn peers(&self) -> (r: &Vec<String>)
        ensures
            r@ == self.peer_list(),
    {
        &self.peers
    }

    /// The node's chain.
    pub fn chain(&self) -> (r: &Chain)
        ensures
            r@ == self.chain_blocks(),
    {
        &self.chain
    }

    /// Adds `peer` to the known peers unless it is already there.
    pub fn add_peer(&mut self, peer: String)
        requires
            old(self).wf(),
        ensures
            final(self).wf(),
            final(self).addr() == old(self).addr(),
            final(self).chain_blocks() == old(self).chain_blocks(),
            final(self).sync_state() == old(self).sync_state(),
            final(self).peer_addrs() == with_peer(old(self).peer_addrs(), peer@),
    {
        let mut i: usize = 0;
        while i < self.peers.len()
            invariant
                *self == *old(self),
                old(self).wf(),
                i <= self.peers@.len(),
                forall|j: int| 0 <= j < i ==> (#[trigger] self.peers@[j])@ != peer@,
            decreases self.peers@.len() - i,
        {
            if self.peers[i] == peer {
                assert(self.peer_addrs()[i as int] == peer@);
                return;
            }
            i = i + 1;
        }
        let ghost before = self.peer_addrs();
        assert(!before.contains(peer@)) by {
            if before.contains(peer@) {
                let k = choose|k: int| 0 <= k < before.len() && before[k] == peer@;
                assert(self.peers@[k]@ == peer@);
            }
        }
        self.peers.push(peer);
        assert(self.peer_addrs() =~= before.push(peer@));
    }

    /// The peer at `choice`, taken modulo the number of peers; `None` when
    /// no peer is known. A uniformly drawn `choice` picks a peer uniformly.
    pub fn get_random_peer(&self, choice: u64) -> (r: Option<String>)
        ensures
            r is None <==> self.peer_addrs().len() == 0,
            r matches Some(p) ==> p@ == self.peer_addrs()[(choice as int) % (self.peer_addrs().len() as int)],
    {
        let n = self.peers.len();
        if n == 0 {
            None
        } else {
            let k = (choice % (n as u64)) as usize;
            Some(self.peers[k].clone())
        }
    }

    /// Processes a message from a peer: updates the state and returns what
    /// is to be sent or shown.
    pub fn handle_message(&mut self, msg: Message) -> (r: Vec<Action>)
        requires
            old(self).wf(),
        ensures
            final(self).wf(),
            final(self).addr() == old(self).addr(),
            handled(*old(self), msg, *final(self), r@),
            msg.payload is BlockchainReply ==> final(self).sync_state() is Idle,
            !(msg.payload is BlockchainReply) ==> final(self).sync_state() == old(self).sync_state(),
    {
        let Message { sender, payload } = msg;
        let mut out: Vec<Action> = Vec::new();
        match payload {
            MessageData::Chat { message } => {
                out.push(Action::Show { from: sender, text: message });
            },
            MessageData::PeerDiscovery {  } => {
                let peers = clone_strings(&self.peers);
                out.push(
                    Action::Send {
                        to: sender,
                        message: Message {
                            sender: self.local_addr.clone(),
                            payload: MessageData::PeerGossip { peers },
                        },
                    },
                );
            },
            MessageData::PeerGossip { peers } => {
                self.merge_peers(&peers);
            },
            MessageData::BlockchainRequest {  } => {
                let chain = self.chain.to_vec();
                out.push(
                    Action::Send {
                        to: sender,
                        message: Message {
                            sender: self.local_addr.clone(),
                            payload: MessageData::BlockchainReply { chain },
                        },
                    },
                );
            },
            MessageData::BlockchainReply { chain } => {
                self.sync = SyncState::Idle;
                match Chain::from_blocks(chain) {
                    Ok(c) => {
                        self.chain = c;
                    },
                    Err(e) => {
                        out.push(Action::Refuse { to: sender, error: e });
                    },
                }
            },
            MessageData::BlockchainTx { block } => {
                let copy = block.clone();
                match self.chain.add_block(block) {
                    Ok(()) => {
                        out.push(
                            Action::Broadcast {
                                message: Message {
                                    sender: self.local_addr.clone(),
                                    payload: MessageData::BlockchainTx { block: copy },
                                },
                            },
                        );
                    },
                    Err(e) => {
                        out.push(Action::Refuse { to: sender, error: e });
                    },
                }
            },
        }
        out
    }

    /// Adds each of `peers` in turn.
    fn merge_peers(&mut self, peers: &Vec<String>)
        requires
            old(self).wf(),
        ensures
            final(self).wf(),
            final(self).addr() == old(self).addr(),
            final(self).chain_blocks() == old(self).chain_blocks(),
            final(self).sync_state() == old(self).sync_state(),
            final(self).peer_addrs() == merge_peers(old(self).peer_addrs(), string_views(peers@)),
    {
        let mut i: usize = 0;
        while i < peers.len()
            invariant
                i <= peers@.len(),
                self.wf(),
                self.addr() == old(self).addr(),
                self.chain_blocks() == old(self).chain_blocks(),
                self.sync_state() == old(self).sync_state(),
                self.peer_addrs() == merge_peers(
                    old(self).peer_addrs(),
                    string_views(peers@).subrange(0, i as int),
                ),
            decreases peers@.len() - i,
        {
            let p = peers[i].clone();
            self.add_peer(p);
            let ghost done = string_views(peers@).subrange(0, i as int + 1);
            assert(done.drop_last() =~= string_views(peers@).subrange(0, i as int));
            assert(done.last() == peers@[i as int]@);
            i = i + 1;
        }
        assert(string_views(peers@).subrange(0, i as int) =~= string_views(peers@));
    }

    /// `/connect`: learns `peer`, then asks it for its peers and its chain.
    pub fn connect(&mut self, peer: String) -> (r: Vec<Action>)
        requires
            old(self).wf(),
        ensures
            final(self).wf(),
            final(self).addr() == old(self).addr(),
            final(self).chain_blocks() == old(self).chain_blocks(),
            final(self).peer_addrs() == with_peer(old(self).peer_addrs(), peer@),
            final(self).sync_state() == old(self).sync_state(),
            r@.len() == 2,
            is_send(r@[0], peer@, old(self).addr(), MessageData::PeerDiscovery {  }),
            is_send(r@[1], peer@, old(self).addr(), MessageData::BlockchainRequest {  }),
    {
        let to = peer.clone();
        self.add_peer(peer);
        let mut out: Vec<Action> = Vec::new();
        out.push(
            Action::Send {
                to: to.clone(),
                message: Message {
                    sender: self.local_addr.clone(),
                    payload: MessageData::PeerDiscovery {  },
                },
            },
        );
        out.push(
            Action::Send {
                to,
                message: Message {
                    sender: self.local_addr.clone(),
                    payload: MessageData::BlockchainRequest {  },
                },
            },
        );
        out
    }

    /// `/send`: a chat line for every peer.
    pub fn chat(&self, text: String) -> (r: Action)
        ensures
            r matches Action::Broadcast { message: m } && m.sender@ == self.addr() && m.payload
                == (MessageData::Chat { message: text }),
    {
        Action::Broadcast {
            message: Message {
                sender: self.local_addr.clone(),
                payload: MessageData::Chat { message: text },
            },
        }
    }

    /// `/sync`: asks the peer picked by `choice` for its chain and awaits
    /// its reply; `None`, with the state unchanged, when no peer is known.
    pub fn sync(&mut self, choice: u64) -> (r: Option<Action>)
        requires
            old(self).wf(),
        ensures
            final(self).wf(),
            final(self).addr() == old(self).addr(),
            final(self).peer_addrs() == old(self).peer_addrs(),
            final(self).chain_blocks() == old(self).chain_blocks(),
            r is None <==> old(self).peer_addrs().len() == 0,
            r is None ==> final(self).sync_state() == old(self).sync_state(),
            r matches Some(a) ==> is_send(
                a,
                old(self).peer_addrs()[(choice as int) % (old(self).peer_addrs().len() as int)],
                old(self).addr(),
                MessageData::BlockchainRequest {  },
            ),
            r is Some ==> (final(self).sync_state() matches SyncState::AwaitingReply { peer }
                && peer@ == old(self).peer_addrs()[(choice as int) % (old(self).peer_addrs().len() as int)]),
    {
        match self.get_random_peer(choice) {
            None => None,
            Some(to) => {
                self.sync = SyncState::AwaitingReply { peer: to.clone() };
                Some(
                    Action::Send {
                        to,
                        message: Message {
                            sender: self.local_addr.clone(),
                            payload: MessageData::BlockchainRequest {  },
                        },
                    },
                )
            },
        }
    }

    /// Whether a chain was asked for and no reply has come yet.
    pub fn awaiting_sync(&self) -> (r: bool)
        ensures
            r == self.sync_state() is AwaitingReply,
    {
        match &self.sync {
            SyncState::Idle => false,
            SyncState::AwaitingReply { .. } => true,
        }
    }

    /// Gives up waiting for a chain; returns whether one was awaited.
    pub fn sync_timed_out(&mut self) -> (r: bool)
        requires
            old(self).wf(),
        ensures
            final(self).wf(),
            final(self).addr() == old(self).addr(),
            final(self).peer_addrs() == old(self).peer_addrs(),
            final(self).chain_blocks() == old(self).chain_blocks(),
            final(self).sync_state() is Idle,
            r == old(self).sync_state() is AwaitingReply,
    {
        let r = self.awaiting_sync();
        self.sync = SyncState::Idle;
        r
    }

    /// `/tx` at a given time: mines the successor of the tail carrying
    /// `data`, appends it, and returns its broadcast. `None`, with the state
    /// unchanged, when the tail's index is the largest or no nonce works.
    pub fn transaction_at(&mut self, timestamp: u64, data: String) -> (r: Option<Action>)
        requires
            old(self).wf(),
        ensures
            final(self).wf(),
            final(self).addr() == old(self).addr(),
            final(self).peer_addrs() == old(self).peer_addrs(),
            final(self).sync_state() == old(self).sync_state(),
            r is None <==> (old(self).chain_blocks().last().index == u64::MAX || forall|n: u64|
                !meets_target(
                    #[trigger] hash_of(
                        (old(self).chain_blocks().last().index + 1) as u64,
                        timestamp,
                        n,
                        data@,
                        old(self).chain_blocks().last().hash@,
                    ),
                    DIFFICULTY as nat,
                )),
            r is None ==> final(self).chain_blocks() == old(self).chain_blocks(),
            r is Some ==> grew_by_mined(*old(self), *final(self), timestamp, data@),
            r matches Some(a) ==> a matches Action::Broadcast { message: m } && m.sender@
                == old(self).addr() && m.payload == (MessageData::BlockchainTx {
                block: final(self).chain_blocks().last(),
            }),
    {
        let tail = self.chain.latest_block();
        if tail.index == u64::MAX {
            return None;
        }
        let mut b = Block::at_time(tail.index + 1, timestamp, data, tail.hash.clone());
        if !b.mine_block() {
            return None;
        }
        let copy = b.clone();
        let ghost before = self.chain@;
        let added = self.chain.add_block(b);
        match added {
            Ok(()) => {
                assert(self.chain@.drop_last() =~= before);
                Some(
                    Action::Broadcast {
                        message: Message {
                            sender: self.local_addr.clone(),
                            payload: MessageData::BlockchainTx { block: copy },
                        },
                    },
                )
            },
            Err(_) => {
                None
            },
        }
    }

    /// `/tx`: as `transaction_at`, stamped with the current time.
    pub fn transaction(&mut self, data: String) -> (r: Result<Option<Action>, ClockError>)
        requires
            old(self).wf(),
        ensures
            final(self).wf(),
            final(self).addr() == old(self).addr(),
            final(self).peer_addrs() == old(self).peer_addrs(),
            final(self).sync_state() == old(self).sync_state(),
            !(r matches Ok(Some(_))) ==> final(self).chain_blocks() == old(self).chain_blocks(),
            r matches Ok(Some(_)) ==> grew_by_mined(
                *old(self),
                *final(self),
                final(self).chain_blocks().last().timestamp,
                data@,
            ),
    {
        match unix_seconds() {
            Some(timestamp) => Ok(self.transaction_at(timestamp, data)),
            None => Err(ClockError),
        }
    }
}

/// `post`'s chain is `pre`'s with one more block: the mined successor of
/// `pre`'s tail stamped `timestamp` with payload `data`.
pub open spec fn grew_by_mined(pre: Node, post: Node, timestamp: u64, data: Seq<char>) -> bool {
    &&& post.chain_blocks().len() == pre.chain_blocks().len() + 1
    &&& post.chain_blocks().drop_last() == pre.chain_blocks()
    &&& mined_successor(pre.chain_blocks().last(), timestamp, data, post.chain_blocks().last())
}

/// Neither the peers nor the chain changed.
pub open spec fn unchanged(pre: Node, post: Node) -> bool {
    post.peer_addrs() == pre.peer_addrs() && post.chain_blocks() == pre.chain_blocks()
}

/// What handling `msg` in state `pre` leads to: the state `post` and the
/// actions `out`.
pub open spec fn handled(pre: Node, msg: Message, post: Node, out: Seq<Action>) -> bool {
    match msg.payload {
        MessageData::Chat { message } => {
            &&& unchanged(pre, post)
            &&& out == seq![Action::Show { from: msg.sender, text: message }]
        },
        MessageData::PeerDiscovery {  } => {
            &&& unchanged(pre, post)
            &&& out.len() == 1
            &&& (out[0] matches Action::Send { to, message: m } && to == msg.sender && m.sender@
                == pre.addr() && (m.payload matches MessageData::PeerGossip { peers } && peers@
                == pre.peer_list()))
        },
        MessageData::PeerGossip { peers } => {
            &&& post.chain_blocks() == pre.chain_blocks()
            &&& post.peer_addrs() == merge_peers(pre.peer_addrs(), string_views(peers@))
            &&& out.len() == 0
        },
        MessageData::BlockchainRequest {  } => {
            &&& unchanged(pre, post)
            &&& out.len() == 1
            &&& (out[0] matches Action::Send { to, message: m } && to == msg.sender && m.sender@
                == pre.addr() && (m.payload matches MessageData::BlockchainReply { chain } && chain@
                == pre.chain_blocks()))
        },
        MessageData::BlockchainReply { chain } => {
            &&& post.peer_addrs() == pre.peer_addrs()
            &&& if chain_valid(chain@) {
                post.chain_blocks() == chain@ && out.len() == 0
            } else {
                &&& post.chain_blocks() == pre.chain_blocks()
                &&& out.len() == 1
                &&& (out[0] matches Action::Refuse { to, error: _ } && to == msg.sender)
            }
        },
        MessageData::BlockchainTx { block } => {
            &&& post.peer_addrs() == pre.peer_addrs()
            &&& match append_check(pre.chain_blocks().last(), block) {
                Ok(()) => {
                    &&& post.chain_blocks() == pre.chain_blocks().push(block)
                    &&& out.len() == 1
                    &&& (out[0] matches Action::Broadcast { message: m } && m.sender@ == pre.addr()
                        && m.payload == (MessageData::BlockchainTx { block }))
                },
                Err(e) => {
                    &&& post.chain_blocks() == pre.chain_blocks()
                    &&& out == seq![Action::Refuse { to: msg.sender, error: e }]
                },
            }
        },
    }
}

} // verus!
