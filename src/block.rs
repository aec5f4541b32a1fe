use sha2::Digest;
use vstd::prelude::*;
use vstd::string::*;
use vstd::utf8::encode_utf8;

verus! {

/// Number of leading `'0'` hex characters a sealed block hash must carry.
pub const DIFFICULTY: usize = 5;

/// The lowercase hex SHA-256 digest of a byte string.
pub uninterp spec fn sha256_hex(bytes: Seq<u8>) -> Seq<char>;

/// Relies on `sha2::Sha256::digest` for the SHA-256 digest of `bytes`, and on
/// generic-array's `LowerHex` for writing it as 64 lowercase hex digits.
#[verifier::external_body]
fn digest_hex(bytes: &Vec<u8>) -> (r: String)
    ensures
        r@ == sha256_hex(bytes@),
{
    format!("{:x}", sha2::Sha256::digest(bytes))
}

/// Relies on `UNIX_EPOCH.elapsed()` (`std::time::SystemTime::elapsed`): the time
/// from the epoch to now in whole seconds, or `None` when the clock reads
/// before the epoch.
#[verifier::external_body]
pub(crate) fn unix_seconds() -> (r: Option<u64>) {
    match std::time::UNIX_EPOCH.elapsed() {
        Ok(d) => Some(d.as_secs()),
        Err(_) => None,
    }
}

/// ASCII decimal digits of `n`, most significant first, without leading zeros.
pub open spec fn decimal(n: nat) -> Seq<u8>
    decreases n,
{
    if n < 10 {
        seq![(48 + n) as u8]
    } else {
        decimal(n / 10).push((48 + n % 10) as u8)
    }
}

/// The bytes hashed to seal a block: the three counters in decimal, then the
/// payload and the predecessor's hash as UTF-8, with no separators.
pub open spec fn preimage(
    index: u64,
    timestamp: u64,
    nonce: u64,
    data: Seq<char>,
    prev_hash: Seq<char>,
) -> Seq<u8> {
    decimal(index as nat) + decimal(timestamp as nat) + decimal(nonce as nat) + encode_utf8(data)
        + encode_utf8(prev_hash)
}

/// The hash of a block with the given canonical fields.
pub open spec fn hash_of(
    index: u64,
    timestamp: u64,
    nonce: u64,
    data: Seq<char>,
    prev_hash: Seq<char>,
) -> Seq<char> {
    sha256_hex(preimage(index, timestamp, nonce, data, prev_hash))
}

/// A hash meets the proof-of-work target when it opens with `d` `'0'` characters.
pub open spec fn meets_target(hash: Seq<char>, d: nat) -> bool {
    hash.len() >= d && forall|i: int| 0 <= i < d ==> hash[i] == '0'
}

/// Appends the decimal form of `n`.
fn push_decimal(out: &mut Vec<u8>, n: u64)
    ensures
        final(out)@ == old(out)@ + decimal(n as nat),
    decreases n,
{
    if n < 10 {
        out.push((48 + n) as u8);
        assert(final(out)@ =~= old(out)@ + decimal(n as nat));
    } else {
        push_decimal(out, n / 10);
        out.push((48 + n % 10) as u8);
        assert(final(out)@ =~= old(out)@ + decimal(n as nat));
    }
}

/// Appends the UTF-8 bytes of `s`.
fn push_utf8(out: &mut Vec<u8>, s: &String)
    ensures
        final(out)@ == old(out)@ + encode_utf8(s@),
{
    let bytes = s.as_str().as_bytes();
    let ghost start = out@;
    let mut i: usize = 0;
    while i < bytes.len()
        invariant
            i <= bytes@.len(),
            bytes@ == encode_utf8(s@),
            out@ == start + bytes@.subrange(0, i as int),
        decreases bytes@.len() - i,
    {
        out.push(bytes[i]);
        i = i + 1;
        assert(out@ =~= start + bytes@.subrange(0, i as int));
    }
    assert(bytes@.subrange(0, i as int) =~= bytes@);
}

/// Whether `hash` opens with `d` `'0'` characters.
pub fn has_leading_zeros(hash: &String, d: usize) -> (r: bool)
    ensures
        r == meets_target(hash@, d as nat),
{
    let s = hash.as_str();
    let len = s.unicode_len();
    if len < d {
        return false;
    }
    let mut i: usize = 0;
    while i < d
        invariant
            i <= d,
            d <= s@.len(),
            s@ == hash@,
            forall|j: int| 0 <= j < i ==> s@[j] == '0',
        decreases d - i,
    {
        if s.get_char(i) != '0' {
            return false;
        }
        i = i + 1;
    }
    true
}

/// A unit of the ledger, sealed by the hash of its canonical fields.
pub struct Block {
    pub index: u64,
    pub timestamp: u64,
    pub nonce: u64,
    pub data: String,
    pub prev_hash: String,
    pub hash: String,
}

/// The clock could not be read as a time after the Unix epoch.
#[derive(PartialEq, Eq, Debug, Clone, Copy)]
pub struct ClockError;

impl Clone for Block {
    fn clone(&self) -> (r: Block)
        ensures
            r == *self,
    {
        Block {
            index: self.index,
            timestamp: self.timestamp,
            nonce: self.nonce,
            data: self.data.clone(),
            prev_hash: self.prev_hash.clone(),
            hash: self.hash.clone(),
        }
    }
}

impl Block {
    /// The hash this block's canonical fields call for.
    pub open spec fn spec_hash(&self) -> Seq<char> {
        hash_of(self.index, self.timestamp, self.nonce, self.data@, self.prev_hash@)
    }

    /// The stored hash is the hash of the canonical fields.
    pub open spec fn is_sealed(&self) -> bool {
        self.hash@ == self.spec_hash()
    }

    /// The stored hash meets the proof-of-work target.
    pub open spec fn is_mined(&self) -> bool {
        meets_target(self.hash@, DIFFICULTY as nat)
    }

    /// A block stamped with `timestamp`, nonce 0 and its hash computed.
    pub fn at_time(index: u64, timestamp: u64, data: String, prev_hash: String) -> (r: Block)
        ensures
            r.index == index,
            r.timestamp == timestamp,
            r.nonce == 0,
            r.data@ == data@,
            r.prev_hash@ == prev_hash@,
            r.is_sealed(),
    {
        let mut block = Block {
            index,
            timestamp,
            nonce: 0,
            data,
            prev_hash,
            hash: String::new(),
        };
        block.hash = block.hash_block();
        block
    }

    /// A block stamped with the current time, nonce 0 and its hash computed.
    pub fn new(index: u64, data: String, previous_hash: String) -> (r: Result<Block, ClockError>)
        ensures
            r matches Ok(b) ==> b.index == index && b.nonce == 0 && b.data@ == data@
                && b.prev_hash@ == previous_hash@ && b.is_sealed(),
    {
        match unix_seconds() {
            Some(timestamp) => Ok(Block::at_time(index, timestamp, data, previous_hash)),
            None => Err(ClockError),
        }
    }

    /// The successor of `previous`, stamped with the current time.
    pub fn next(previous: &Block, data: String) -> (r: Result<Block, ClockError>)
        requires
            previous.index < u64::MAX,
        ensures
            r matches Ok(b) ==> b.index == previous.index + 1 && b.nonce == 0 && b.data@
                == data@ && b.prev_hash@ == previous.hash@ && b.is_sealed(),
    {
        let next_index = previous.index + 1;
        let this_hash = previous.hash.clone();
        Block::new(next_index, data, this_hash)
    }

    /// The hash of the canonical fields, in the order index, timestamp,
    /// nonce, data, previous hash.
    pub fn hash_block(&self) -> (r: String)
        ensures
            r@ == self.spec_hash(),
    {
        let mut bytes: Vec<u8> = Vec::new();
        push_decimal(&mut bytes, self.index);
        push_decimal(&mut bytes, self.timestamp);
        push_decimal(&mut bytes, self.nonce);
        push_utf8(&mut bytes, &self.data);
        push_utf8(&mut bytes, &self.prev_hash);
        assert(bytes@ =~= preimage(
            self.index,
            self.timestamp,
            self.nonce,
            self.data@,
            self.prev_hash@,
        ));
        digest_hex(&bytes)
    }

    /// Searches nonces upward from the current one until the hash meets the
    /// target. Returns `false` only when every nonce up to `u64::MAX` fails.
    pub fn mine_block(&mut self) -> (found: bool)
        ensures
            final(self).index == old(self).index,
            final(self).timestamp == old(self).timestamp,
            final(self).data == old(self).data,
            final(self).prev_hash == old(self).prev_hash,
            final(self).is_sealed(),
            old(self).nonce <= final(self).nonce,
            forall|n: u64|
                old(self).nonce <= n < final(self).nonce ==> !meets_target(
                    #[trigger] hash_of(
                        old(self).index,
                        old(self).timestamp,
                        n,
                        old(self).data@,
                        old(self).prev_hash@,
                    ),
                    DIFFICULTY as nat,
                ),
            found == final(self).is_mined(),
            !found ==> final(self).nonce == u64::MAX,
    {
        let target = self.difficulty();
        self.hash = self.hash_block();
        while !has_leading_zeros(&self.hash, target)
            invariant
                target == DIFFICULTY,
                self.index == old(self).index,
                self.timestamp == old(self).timestamp,
                self.data == old(self).data,
                self.prev_hash == old(self).prev_hash,
                self.is_sealed(),
                old(self).nonce <= self.nonce,
                forall|n: u64|
                    old(self).nonce <= n < self.nonce ==> !meets_target(
                        #[trigger] hash_of(
                            old(self).index,
                            old(self).timestamp,
                            n,
                            old(self).data@,
                            old(self).prev_hash@,
                        ),
                        DIFFICULTY as nat,
                    ),
            decreases u64::MAX - self.nonce,
        {
            if self.nonce == u64::MAX {
                return false;
            }
            self.nonce = self.nonce + 1;
            self.hash = self.hash_block();
        }
        true
    }

    /// The proof-of-work difficulty: a fixed number of leading zero hex digits.
    pub fn difficulty(&self) -> (r: usize)
        ensures
            r == DIFFICULTY,
    {
        DIFFICULTY
    }
}

/// The hash depends on the five canonical fields alone: blocks that agree on
/// index, timestamp, nonce, data and previous hash have the same hash.
pub proof fn lemma_hash_deterministic(a: Block, b: Block)
    requires
        a.index == b.index,
        a.timestamp == b.timestamp,
        a.nonce == b.nonce,
        a.data@ == b.data@,
        a.prev_hash@ == b.prev_hash@,
    ensures
        a.spec_hash() == b.spec_hash(),
{
}

} // verus!
