use crate::block::Block;
use crate::chain::clone_blocks;
use vstd::prelude::*;

verus! {

/// The payload of a message between nodes.
pub enum MessageData {
    /// A line of chat for the receiving node's user.
    Chat { message: String },
    /// A request for the receiver's peers.
    PeerDiscovery {},
    /// The sender's peers.
    PeerGossip { peers: Vec<String> },
    /// A request for the receiver's whole chain.
    BlockchainRequest {},
    /// The sender's whole chain, genesis first.
    BlockchainReply { chain: Vec<Block> },
    /// A newly mined block offered for the receiver's chain.
    BlockchainTx { block: Block },
}

/// A payload with the address of the node that sent it.
pub struct Message {
    pub sender: String,
    pub payload: MessageData,
}

/// The character sequences of a list of strings.
pub open spec fn string_views(ps: Seq<String>) -> Seq<Seq<char>> {
    ps.map_values(|p: String| p@)
}

/// Clones a list of strings, one by one.
pub fn clone_strings(items: &Vec<String>) -> (r: Vec<String>)
    ensures
        r@ == items@,
{
    let mut out: Vec<String> = Vec::new();
    let mut i: usize = 0;
    while i < items.len()
        invariant
            i <= items@.len(),
            out@ == items@.subrange(0, i as int),
        decreases items@.len() - i,
    {
        out.push(items[i].clone());
        i = i + 1;
        assert(out@ =~= items@.subrange(0, i as int));
    }
    assert(items@.subrange(0, i as int) =~= items@);
    out
}

/// Two payloads agree: the same variant with the same contents, lists
/// compared by their elements.
pub open spec fn same_payload(a: MessageData, b: MessageData) -> bool {
    match (a, b) {
        (MessageData::PeerGossip { peers: p }, MessageData::PeerGossip { peers: q }) => p@ == q@,
        (
            MessageData::BlockchainReply { chain: c },
            MessageData::BlockchainReply { chain: d },
        ) => c@ == d@,
        _ => a == b,
    }
}

/// Two messages agree: the same sender and payloads that agree.
pub open spec fn same_message(a: Message, b: Message) -> bool {
    a.sender == b.sender && same_payload(a.payload, b.payload)
}

impl Clone for MessageData {
    fn clone(&self) -> (r: MessageData)
        ensures
            same_payload(r, *self),
    {
        match self {
            MessageData::Chat { message } => MessageData::Chat { message: message.clone() },
            MessageData::PeerDiscovery {} => MessageData::PeerDiscovery {},
            MessageData::PeerGossip { peers } => MessageData::PeerGossip {
                peers: clone_strings(peers),
            },
            MessageData::BlockchainRequest {} => MessageData::BlockchainRequest {},
            MessageData::BlockchainReply { chain } => MessageData::BlockchainReply {
                chain: clone_blocks(chain),
            },
            MessageData::BlockchainTx { block } => MessageData::BlockchainTx {
                block: block.clone(),
            },
        }
    }
}

impl Clone for Message {
    fn clone(&self) -> (r: Message)
        ensures
            same_message(r, *self),
    {
        Message { sender: self.sender.clone(), payload: self.payload.clone() }
    }
}

} // verus!
