//! Commits: a submitted solution as the client sends it, the stored commit,
//! and the making of a new commit with its random hash.

use vstd::prelude::*;

verus! {

/// A moment in UTC: whole seconds since the Unix epoch and the nanoseconds
/// past that second.
#[derive(Clone, Copy, Debug, PartialEq, Eq, Structural)]
pub struct Timestamp {
    pub secs: i64,
    pub nanos: u32,
}

/// A solution as the client submits it.
#[derive(Clone, Debug)]
pub struct ReqCommit {
    pub title: String,
    pub solution: String,
    /// Code of the language the solution is written in.
    pub language: i32,
    pub description: String,
}

/// A stored commit.
#[derive(Clone, Debug)]
pub struct ResCommit {
    pub id: i32,
    pub commit_hash: String,
    pub user_id: i64,
    pub date: Timestamp,
    pub title: String,
    pub solution: String,
    pub is_valid: bool,
    pub language: i32,
    pub description: String,
    pub challenge_id: i32,
}

/// Number of random bytes behind a commit hash.
pub const HASH_BYTES: usize = 16;

/// The lowercase hexadecimal digit of `n` (`0 <= n < 16`).
pub open spec fn hex_digit(n: int) -> char {
    if n < 10 {
        (n + 48) as char
    } else {
        (n + 87) as char
    }
}

/// Whether `c` is one of `0`-`9` or `a`-`f`.
pub open spec fn is_lower_hex(c: char) -> bool {
    (48 <= (c as int) <= 57) || (97 <= (c as int) <= 102)
}

/// `bytes` in lowercase hexadecimal: two digits per byte, high nibble first.
pub open spec fn hex_lower(bytes: Seq<u8>) -> Seq<char>
    decreases bytes.len(),
{
    if bytes.len() == 0 {
        Seq::empty()
    } else {
        seq![hex_digit((bytes[0] / 16) as int), hex_digit((bytes[0] % 16) as int)] + hex_lower(bytes.drop_first())
    }
}

/// The shape of every commit hash: 32 lowercase hexadecimal digits that
/// encode 16 bytes.
pub open spec fn is_commit_hash(h: Seq<char>) -> bool {
    &&& h.len() == 2 * HASH_BYTES
    &&& forall|i: int| 0 <= i < h.len() ==> is_lower_hex(#[trigger] h[i])
    &&& exists|b: Seq<u8>| b.len() == HASH_BYTES && h == hex_lower(b)
}

/// Calls `hex::encode`, which writes each byte of `data` as two lowercase
/// hexadecimal digits, high nibble first, from the table `0123456789abcdef`.
/// The contract claims exactly that text.
#[verifier::external_body]
fn hex_encode(data: &[u8]) -> (s: String)
    ensures
        s@ == hex_lower(data@),
{
    hex::encode(data)
}

/// Fills 16 bytes from the operating system's entropy source, `rand::rngs::OsRng`,
/// with `RngCore::try_fill_bytes`, which reports a failing source as an error
/// instead of panicking; the error becomes `None`. The bytes are random, so
/// nothing is claimed of them, nor of when the source fails.
#[verifier::external_body]
fn random_hash_bytes() -> (b: Option<[u8; 16]>) {
    let mut data = [0u8; 16];
    match rand::RngCore::try_fill_bytes(&mut rand::rngs::OsRng, &mut data) {
        Ok(()) => Some(data),
        Err(_) => None,
    }
}

proof fn lemma_hex_lower_shape(bytes: Seq<u8>)
    ensures
        hex_lower(bytes).len() == 2 * bytes.len(),
        forall|i: int| 0 <= i < hex_lower(bytes).len() ==> is_lower_hex(#[trigger] hex_lower(bytes)[i]),
    decreases bytes.len(),
{
    if bytes.len() > 0 {
        let rest = bytes.drop_first();
        lemma_hex_lower_shape(rest);
        let hi = bytes[0] / 16;
        let lo = bytes[0] % 16;
        assert(is_lower_hex(hex_digit(hi as int)));
        assert(is_lower_hex(hex_digit(lo as int)));
        let h = hex_lower(bytes);
        assert forall|i: int| 0 <= i < h.len() implies is_lower_hex(#[trigger] h[i]) by {
            if i >= 2 {
                assert(h[i] == hex_lower(rest)[i - 2]);
            }
        }
    }
}

/// The commit hash that the bytes `bytes` give: their lowercase hex text.
pub fn commit_hash_from_bytes(bytes: &[u8; 16]) -> (h: String)
    ensures
        h@ == hex_lower(bytes@),
        is_commit_hash(h@),
{
    let h = hex_encode(bytes.as_slice());
    proof {
        lemma_hex_lower_shape(bytes@);
        assert(bytes@.len() == HASH_BYTES);
    }
    h
}

/// A fresh commit hash: 16 random bytes in lowercase hex, or `None` when
/// the entropy source fails.
pub fn new_commit_hash() -> (h: Option<String>)
    ensures
        h matches Some(s) ==> is_commit_hash(s@),
{
    match random_hash_bytes() {
        Some(bytes) => Some(commit_hash_from_bytes(&bytes)),
        None => None,
    }
}

impl ResCommit {
    /// The commit that records `req` as submitted by `user_id` for the
    /// challenge `challenge_id`, with the test verdict `is_valid`, the hash
    /// `commit_hash` and the date `date`. Its id is 0 until it is stored.
    pub fn from_submission(
        req: &ReqCommit,
        user_id: i64,
        challenge_id: i32,
        is_valid: bool,
        commit_hash: String,
        date: Timestamp,
    ) -> (c: ResCommit)
        ensures
            c.id == 0,
            c.commit_hash == commit_hash,
            c.user_id == user_id,
            c.date == date,
            c.title == req.title,
            c.solution == req.solution,
            c.is_valid == is_valid,
            c.language == req.language,
            c.description == req.description,
            c.challenge_id == challenge_id,
    {
        ResCommit {
            id: 0,
            commit_hash,
            user_id,
            date,
            title: req.title.clone(),
            solution: req.solution.clone(),
            is_valid,
            language: req.language,
            description: req.description.clone(),
            challenge_id,
        }
    }

    /// A new commit for `req`, dated `date`: as `from_submission`, with a
    /// fresh random hash, or `None` when no random bytes can be drawn.
    pub fn new_submission(
        req: &ReqCommit,
        user_id: i64,
        challenge_id: i32,
        is_valid: bool,
        date: Timestamp,
    ) -> (r: Option<ResCommit>)
        ensures
            r matches Some(c) ==> {
                &&& c.id == 0
                &&& is_commit_hash(c.commit_hash@)
                &&& c.user_id == user_id
                &&& c.date == date
                &&& c.title == req.title
                &&& c.solution == req.solution
                &&& c.is_valid == is_valid
                &&& c.language == req.language
                &&& c.description == req.description
                &&& c.challenge_id == challenge_id
            },
    {
        match new_commit_hash() {
            Some(hash) => Some(
                ResCommit::from_submission(req, user_id, challenge_id, is_valid, hash, date),
            ),
            None => None,
        }
    }
}

} // verus!
