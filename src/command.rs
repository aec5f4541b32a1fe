use crate::message::string_views;
use vstd::prelude::*;
use vstd::string::*;

verus! {

/// The words of a line, split at whitespace.
pub uninterp spec fn whitespace_words(line: Seq<char>) -> Seq<Seq<char>>;

/// Relies on `str::split_whitespace`: the maximal runs of non-whitespace
/// characters of `line`, in order.
#[verifier::external_body]
fn split_words(line: &str) -> (r: Vec<String>)
    ensures
        string_views(r@) == whitespace_words(line@),
{
    line.split_whitespace().map(|w| w.to_string()).collect()
}

/// A request typed by the local user.
pub enum Command {
    /// `/send <text>`: a chat line for every peer.
    Send { text: String },
    /// `/connect <addr>`: learn a peer and ask it for its peers and chain.
    Connect { peer: String },
    /// `/peers`: list the known peers.
    Peers,
    /// `/sync`: ask a random peer for its chain.
    Sync,
    /// `/tx <text>`: mine a block carrying `text` and offer it to the peers.
    Tx { text: String },
    /// `/chain`: show the chain.
    ShowChain,
    /// `/save`: write the chain to disk.
    Save,
    /// `/exit`: stop reading commands.
    Exit,
    /// Anything else: show the list of commands.
    Help,
}

/// The words joined with single spaces.
pub open spec fn join_words(ws: Seq<Seq<char>>) -> Seq<char>
    decreases ws.len(),
{
    if ws.len() == 0 {
        Seq::empty()
    } else if ws.len() == 1 {
        ws[0]
    } else {
        join_words(ws.drop_last()) + seq![' '] + ws.last()
    }
}

/// `c` is the command that the words `w` ask for.
pub open spec fn command_for(c: Command, w: Seq<Seq<char>>) -> bool {
    if w.len() >= 1 && w[0] == "/send"@ {
        c matches Command::Send { text } && text@ == join_words(w.drop_first())
    } else if w.len() == 2 && w[0] == "/connect"@ {
        c matches Command::Connect { peer } && peer@ == w[1]
    } else if w.len() == 1 && w[0] == "/peers"@ {
        c is Peers
    } else if w.len() == 1 && w[0] == "/sync"@ {
        c is Sync
    } else if w.len() >= 1 && w[0] == "/tx"@ {
        c matches Command::Tx { text } && text@ == join_words(w.drop_first())
    } else if w.len() == 1 && w[0] == "/chain"@ {
        c is ShowChain
    } else if w.len() == 1 && w[0] == "/save"@ {
        c is Save
    } else if w.len() == 1 && w[0] == "/exit"@ {
        c is Exit
    } else {
        c is Help
    }
}

/// Whether `w` is the word `lit`.
fn word_is(w: &String, lit: &str) -> (r: bool)
    ensures
        r == (w@ == lit@),
{
    let l = String::from_str(lit);
    *w == l
}

/// The words after the first, joined with single spaces.
fn rest_joined(words: &Vec<String>) -> (r: String)
    requires
        words@.len() >= 1,
    ensures
        r@ == join_words(string_views(words@).drop_first()),
{
    let ghost ws = string_views(words@);
    let mut out = String::new();
    let mut i: usize = 1;
    while i < words.len()
        invariant
            1 <= i <= words@.len(),
            ws == string_views(words@),
            out@ == join_words(ws.subrange(1, i as int)),
        decreases words@.len() - i,
    {
        let ghost done = ws.subrange(1, i as int + 1);
        assert(done.drop_last() =~= ws.subrange(1, i as int));
        assert(done.last() == words@[i as int]@);
        if i == 1 {
            out = words[i].clone();
        } else {
            out.append(" ");
            out.append(words[i].as_str());
            proof {
                reveal_strlit(" ");
            }
            assert(out@ =~= join_words(done));
        }
        i = i + 1;
    }
    assert(ws.subrange(1, i as int) =~= ws.drop_first());
    out
}

impl Command {
    /// The command that a line, already split into words, asks for.
    pub fn from_words(words: &Vec<String>) -> (r: Command)
        ensures
            command_for(r, string_views(words@)),
    {
        let ghost w = string_views(words@);
        let n = words.len();
        if n == 0 {
            return Command::Help;
        }
        let first = &words[0];
        assert(w[0] == first@);
        if word_is(first, "/send") {
            Command::Send { text: rest_joined(words) }
        } else if n == 2 && word_is(first, "/connect") {
            Command::Connect { peer: words[1].clone() }
        } else if n == 1 && word_is(first, "/peers") {
            Command::Peers
        } else if n == 1 && word_is(first, "/sync") {
            Command::Sync
        } else if word_is(first, "/tx") {
            Command::Tx { text: rest_joined(words) }
        } else if n == 1 && word_is(first, "/chain") {
            Command::ShowChain
        } else if n == 1 && word_is(first, "/save") {
            Command::Save
        } else if n == 1 && word_is(first, "/exit") {
            Command::Exit
        } else {
            Command::Help
        }
    }

    /// The command that a line of user input asks for.
    pub fn parse(line: &str) -> (r: Command)
        ensures
            command_for(r, whitespace_words(line@)),
    {
        let words = split_words(line);
        Command::from_words(&words)
    }
}

} // verus!
