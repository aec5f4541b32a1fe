use ledger_node::block::Block;
use ledger_node::chain::{Chain, ChainError};
use ledger_node::message::{Message, MessageData};
use ledger_node::node::{Action, Node, SyncState};

fn genesis() -> Block {
    Block::at_time(0, 1700000000, "genesis".to_string(), String::new())
}

fn node() -> Node {
    Node::new("127.0.0.1:9000".to_string(), Chain::new(genesis()).unwrap())
}

fn msg(sender: &str, payload: MessageData) -> Message {
    Message { sender: sender.to_string(), payload }
}

#[test]
fn new_node_knows_no_peers() {
    let mut n = node();
    assert_eq!(n.get_local_addr(), "127.0.0.1:9000");
    assert!(n.peers().is_empty());
    assert_eq!(n.get_random_peer(3), None);
    assert!(n.sync(0).is_none());
    assert!(!n.awaiting_sync());
    assert_eq!(n.chain().len(), 1);
}

#[test]
fn connect_learns_peer_and_asks_twice() {
    let mut n = node();
    let out = n.connect("10.0.0.2:9000".to_string());
    assert_eq!(n.peers(), &vec!["10.0.0.2:9000".to_string()]);
    assert_eq!(out.len(), 2);
    match &out[0] {
        Action::Send { to, message } => {
            assert_eq!(to, "10.0.0.2:9000");
            assert_eq!(message.sender, "127.0.0.1:9000");
            assert!(matches!(message.payload, MessageData::PeerDiscovery {}));
        }
        _ => panic!("expected a send"),
    }
    match &out[1] {
        Action::Send { to, message } => {
            assert_eq!(to, "10.0.0.2:9000");
            assert!(matches!(message.payload, MessageData::BlockchainRequest {}));
        }
        _ => panic!("expected a send"),
    }
}

#[test]
fn add_peer_is_idempotent() {
    let mut n = node();
    n.add_peer("a".to_string());
    n.add_peer("b".to_string());
    n.add_peer("a".to_string());
    assert_eq!(n.peers(), &vec!["a".to_string(), "b".to_string()]);
}

#[test]
fn random_peer_follows_choice() {
    let mut n = node();
    n.add_peer("a".to_string());
    n.add_peer("b".to_string());
    n.add_peer("c".to_string());
    assert_eq!(n.get_random_peer(4), Some("b".to_string()));
    match n.sync(2) {
        Some(Action::Send { to, message }) => {
            assert_eq!(to, "c");
            assert!(matches!(message.payload, MessageData::BlockchainRequest {}));
        }
        _ => panic!("expected a send"),
    }
    assert!(n.awaiting_sync());
}

#[test]
fn sync_waits_for_reply_then_idles() {
    let mut n = node();
    n.add_peer("a".to_string());
    assert!(n.sync(0).is_some());
    assert!(n.awaiting_sync());
    let _ = n.handle_message(msg("a", MessageData::BlockchainReply { chain: vec![genesis()] }));
    assert!(!n.awaiting_sync());
    assert!(n.sync(1).is_some());
    assert!(n.sync_timed_out());
    assert!(!n.sync_timed_out());
    assert!(!n.awaiting_sync());
    let _ = SyncState::Idle;
}

#[test]
fn chat_is_shown() {
    let mut n = node();
    let out = n.handle_message(msg("x", MessageData::Chat { message: "hi".to_string() }));
    assert_eq!(out.len(), 1);
    match &out[0] {
        Action::Show { from, text } => {
            assert_eq!(from, "x");
            assert_eq!(text, "hi");
        }
        _ => panic!("expected a show"),
    }
    match n.chat("yo".to_string()) {
        Action::Broadcast { message } => match message.payload {
            MessageData::Chat { message: t } => assert_eq!(t, "yo"),
            _ => panic!("expected chat"),
        },
        _ => panic!("expected a broadcast"),
    }
}

#[test]
fn discovery_is_answered_with_peers() {
    let mut n = node();
    n.add_peer("a".to_string());
    let out = n.handle_message(msg("x", MessageData::PeerDiscovery {}));
    assert_eq!(out.len(), 1);
    match &out[0] {
        Action::Send { to, message } => {
            assert_eq!(to, "x");
            match &message.payload {
                MessageData::PeerGossip { peers } => assert_eq!(peers, &vec!["a".to_string()]),
                _ => panic!("expected gossip"),
            }
        }
        _ => panic!("expected a send"),
    }
}

#[test]
fn gossip_is_merged_without_duplicates() {
    let mut n = node();
    n.add_peer("a".to_string());
    let peers = vec!["b".to_string(), "a".to_string(), "b".to_string(), "c".to_string()];
    let out = n.handle_message(msg("x", MessageData::PeerGossip { peers }));
    assert!(out.is_empty());
    assert_eq!(n.peers(), &vec!["a".to_string(), "b".to_string(), "c".to_string()]);
}

#[test]
fn chain_request_is_answered_with_chain() {
    let mut n = node();
    let out = n.handle_message(msg("x", MessageData::BlockchainRequest {}));
    match &out[0] {
        Action::Send { to, message } => {
            assert_eq!(to, "x");
            match &message.payload {
                MessageData::BlockchainReply { chain } => {
                    assert_eq!(chain.len(), 1);
                    assert_eq!(chain[0].hash, genesis().hash);
                }
                _ => panic!("expected a chain"),
            }
        }
        _ => panic!("expected a send"),
    }
}

#[test]
fn invalid_chain_reply_leaves_chain() {
    let mut n = node();
    let mut forged = Block::at_time(0, 5, "other".to_string(), String::new());
    forged.hash = "deadbeef".to_string();
    let out = n.handle_message(msg("x", MessageData::BlockchainReply { chain: vec![forged] }));
    assert_eq!(n.chain().len(), 1);
    assert_eq!(n.chain().latest_block().hash, genesis().hash);
    match &out[0] {
        Action::Refuse { to, error } => {
            assert_eq!(to, "x");
            assert_eq!(*error, ChainError::HashMismatch);
        }
        _ => panic!("expected a refusal"),
    }
}

#[test]
fn valid_chain_reply_replaces_chain() {
    let mut n = node();
    let other = Block::at_time(0, 5, "other".to_string(), String::new());
    let out = n.handle_message(msg("x", MessageData::BlockchainReply { chain: vec![other.clone()] }));
    assert!(out.is_empty());
    assert_eq!(n.chain().latest_block().hash, other.hash);
}

#[test]
fn unlinked_transaction_is_refused() {
    let mut n = node();
    let b = Block::at_time(1, 6, "tx".to_string(), "nowhere".to_string());
    let out = n.handle_message(msg("x", MessageData::BlockchainTx { block: b }));
    assert_eq!(n.chain().len(), 1);
    match &out[0] {
        Action::Refuse { to, error } => {
            assert_eq!(to, "x");
            assert_eq!(*error, ChainError::LinkageMismatch);
        }
        _ => panic!("expected a refusal"),
    }
}

#[test]
fn local_transaction_is_mined_appended_and_broadcast() {
    let mut n = node();
    let tail_hash = n.chain().latest_block().hash.clone();
    let action = n.transaction_at(1700000100, "pay bob".to_string());
    assert_eq!(n.chain().len(), 2);
    let b = n.chain().latest_block().clone();
    assert_eq!(b.index, 1);
    assert_eq!(b.timestamp, 1700000100);
    assert_eq!(b.data, "pay bob");
    assert_eq!(b.prev_hash, tail_hash);
    assert!(b.hash.starts_with("00000"));
    assert_eq!(b.hash, b.hash_block());
    match action {
        Some(Action::Broadcast { message }) => {
            assert_eq!(message.sender, "127.0.0.1:9000");
            match message.payload {
                MessageData::BlockchainTx { block } => assert_eq!(block.hash, b.hash),
                _ => panic!("expected a block"),
            }
        }
        _ => panic!("expected a broadcast"),
    }
    // A peer offering the same block again no longer links to the tail.
    let out = n.handle_message(msg("x", MessageData::BlockchainTx { block: b }));
    assert_eq!(n.chain().len(), 2);
    assert!(matches!(out[0], Action::Refuse { error: ChainError::LinkageMismatch, .. }));
}
