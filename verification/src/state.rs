//! The review as it is kept in an account, and its byte layout:
//! one byte for the initialization flag, one for the rating, then the title
//! and the description as length-prefixed strings.

use crate::wire::{
    lemma_string_round_trip, overwrite, read_string, string_at, string_bytes, write_string,
};
use vstd::prelude::*;
use vstd::utf8::*;

verus! {

/// The largest number of bytes that a stored review may take.
pub const MAX_REVIEW_LEN: usize = 1000;

/// The bytes taken by everything but the text of the two strings: the flag,
/// the rating and two length prefixes.
pub const REVIEW_OVERHEAD: usize = 10;

/// A review as stored in its account.
#[derive(Clone, Debug)]
pub struct MovieAccountState {
    pub is_initialized: bool,
    pub rating: u8,
    pub title: String,
    pub description: String,
}

/// What a stored review holds, as mathematical values.
pub struct Review {
    pub is_initialized: bool,
    pub rating: u8,
    pub title: Seq<char>,
    pub description: Seq<char>,
}

impl View for MovieAccountState {
    type V = Review;

    open spec fn view(&self) -> Review {
        Review {
            is_initialized: self.is_initialized,
            rating: self.rating,
            title: self.title@,
            description: self.description@,
        }
    }
}

/// The number of bytes that a review with this title and description takes.
pub open spec fn review_len(title: Seq<char>, description: Seq<char>) -> nat {
    1 + 1 + (4 + encode_utf8(title).len()) + (4 + encode_utf8(description).len())
}

impl Review {
    /// The record found in storage that was allocated and never written.
    pub open spec fn uninitialized() -> Review {
        Review { is_initialized: false, rating: 0, title: seq![], description: seq![] }
    }

    /// The number of bytes of the encoding.
    pub open spec fn packed_len(self) -> nat {
        review_len(self.title, self.description)
    }

    /// Both strings are short enough for their length prefix.
    pub open spec fn encodable(self) -> bool {
        encode_utf8(self.title).len() <= u32::MAX && encode_utf8(self.description).len()
            <= u32::MAX
    }

    /// The encoding exists and takes at most `capacity` bytes.
    pub open spec fn fits(self, capacity: nat) -> bool {
        self.encodable() && self.packed_len() <= capacity
    }

    /// What every review written by this library satisfies: it is marked
    /// initialized, rated from 1 to 5, and takes at most 1000 bytes.
    pub open spec fn valid(self) -> bool {
        &&& self.is_initialized
        &&& 1 <= self.rating <= 5
        &&& self.packed_len() <= MAX_REVIEW_LEN
    }

    /// The encoding: flag, rating, title, description.
    pub open spec fn bytes(self) -> Seq<u8> {
        seq![if self.is_initialized { 1u8 } else { 0u8 }, self.rating] + string_bytes(self.title)
            + string_bytes(self.description)
    }
}

/// The number of bytes that a review with this title and description takes,
/// where that is at most `MAX_REVIEW_LEN`.
pub fn bounded_review_len(title: &str, description: &str) -> (r: Option<usize>)
    ensures
        review_len(title@, description@) <= MAX_REVIEW_LEN ==> r == Some(
            review_len(title@, description@) as usize,
        ),
        review_len(title@, description@) > MAX_REVIEW_LEN ==> r is None,
{
    let t: usize = title.as_bytes().len();
    let d: usize = description.as_bytes().len();
    if t > MAX_REVIEW_LEN - REVIEW_OVERHEAD || d > MAX_REVIEW_LEN - REVIEW_OVERHEAD - t {
        None
    } else {
        Some(1 + 1 + (4 + t) + (4 + d))
    }
}

impl MovieAccountState {
    /// Whether the account has been written by a successful creation.
    pub fn is_initialized(&self) -> (r: bool)
        ensures
            r == self@.is_initialized,
    {
        self.is_initialized
    }

    /// Decodes the review at the front of `data` without asking that all of
    /// `data` is used up: an account may be larger than the review in it.
    pub fn try_from_slice_unchecked(data: &[u8]) -> (r: Option<MovieAccountState>)
        ensures
            match parse_review(data@) {
                Some(review) => r matches Some(state) && state@ == review,
                None => r is None,
            },
    {
        if data.len() < 2 || data[0] > 1 {
            return None;
        }
        let is_initialized = data[0] == 1;
        let rating: u8 = data[1];
        let (title, next) = match read_string(data, 2) {
            Some(found) => found,
            None => {
                return None;
            },
        };
        match read_string(data, next) {
            Some((description, _)) => Some(
                MovieAccountState { is_initialized, rating, title, description },
            ),
            None => None,
        }
    }

    /// Writes the encoding over the front of `buf` and gives its length. The
    /// bytes of `buf` behind the encoding stay as they are. Where the encoding
    /// does not fit in `buf`, or a string is too long for its length prefix,
    /// nothing is written.
    pub fn serialize(&self, buf: &mut [u8]) -> (r: Option<usize>)
        ensures
            match r {
                Some(n) => {
                    &&& self@.fits(old(buf)@.len())
                    &&& n == self@.packed_len()
                    &&& final(buf)@ == overwrite(old(buf)@, 0, self@.bytes())
                    &&& parse_review(final(buf)@) == Some(self@)
                },
                None => !self@.fits(old(buf)@.len()) && final(buf)@ == old(buf)@,
            },
    {
        let cap: usize = buf.len();
        let t: usize = self.title.as_str().as_bytes().len();
        let d: usize = self.description.as_str().as_bytes().len();
        if t > u32::MAX as usize || d > u32::MAX as usize {
            return None;
        }
        if cap < REVIEW_OVERHEAD || t > cap - REVIEW_OVERHEAD || d > cap - REVIEW_OVERHEAD - t {
            return None;
        }
        buf[0] = if self.is_initialized {
            1
        } else {
            0
        };
        buf[1] = self.rating;
        let next: usize = write_string(buf, 2, self.title.as_str());
        let end: usize = write_string(buf, next, self.description.as_str());
        proof {
            lemma_written_in_steps(self@, old(buf)@);
            lemma_overwritten_decodes(self@, old(buf)@);
        }
        Some(end)
    }
}

/// The review that the front of `b` encodes; bytes behind it are not looked at.
/// There is none where `b` is too short, the flag is neither 0 nor 1, or a
/// string is cut off or not UTF-8.
pub open spec fn parse_review(b: Seq<u8>) -> Option<Review> {
    if b.len() < 2 || b[0] > 1 {
        None
    } else {
        match string_at(b, 2) {
            None => None,
            Some((title, next)) => match string_at(b, next) {
                None => None,
                Some((description, _)) => Some(
                    Review { is_initialized: b[0] == 1, rating: b[1], title, description },
                ),
            },
        }
    }
}

/// Decoding what was encoded gives the review back, whatever follows the encoding.
pub proof fn lemma_decode_encode(r: Review, rest: Seq<u8>)
    requires
        r.encodable(),
    ensures
        r.bytes().len() == r.packed_len(),
        parse_review(r.bytes() + rest) == Some(r),
{
    let b = r.bytes() + rest;
    let head = seq![if r.is_initialized { 1u8 } else { 0u8 }, r.rating];
    let t = string_bytes(r.title);
    let d = string_bytes(r.description);
    let next: int = 2 + t.len() as int;
    assert(b =~= head + t + d + rest);
    assert(string_at(b, 2) == Some((r.title, next))) by {
        assert(b.subrange(2, next) =~= t);
        lemma_string_round_trip(r.title, b, 2);
    }
    assert(string_at(b, next) == Some((r.description, next + d.len() as int))) by {
        assert(b.subrange(next, next + d.len() as int) =~= d);
        lemma_string_round_trip(r.description, b, next);
    }
    assert(b[0] == head[0] && b[1] == head[1]);
}

/// Writing the flag, the rating, the title and the description one after
/// the other writes the encoding as a whole.
proof fn lemma_written_in_steps(r: Review, buf: Seq<u8>)
    requires
        r.fits(buf.len()),
    ensures
        ({
            let flag = if r.is_initialized { 1u8 } else { 0u8 };
            let title = string_bytes(r.title);
            let head = buf.update(0, flag).update(1, r.rating);
            overwrite(
                overwrite(head, 2, title),
                2 + title.len() as int,
                string_bytes(r.description),
            ) == overwrite(buf, 0, r.bytes())
        }),
{
    let flag = if r.is_initialized { 1u8 } else { 0u8 };
    let title = string_bytes(r.title);
    let description = string_bytes(r.description);
    let head = buf.update(0, flag).update(1, r.rating);
    assert(r.bytes() =~= seq![flag, r.rating] + title + description);
    assert(overwrite(
        overwrite(head, 2, title),
        2 + title.len() as int,
        description,
    ) =~= overwrite(buf, 0, r.bytes()));
}

/// A review written over the front of a buffer that has room for it is
/// decoded again from that buffer.
pub proof fn lemma_overwritten_decodes(r: Review, buf: Seq<u8>)
    requires
        r.fits(buf.len()),
    ensures
        parse_review(overwrite(buf, 0, r.bytes())) == Some(r),
{
    let rest = buf.subrange(r.packed_len() as int, buf.len() as int);
    lemma_decode_encode(r, rest);
    assert(overwrite(buf, 0, r.bytes()) =~= r.bytes() + rest);
}

/// A valid review can be encoded, in at most 1000 bytes, and is decoded again
/// from its encoding.
pub proof fn lemma_valid_round_trip(r: Review)
    requires
        r.valid(),
    ensures
        r.bytes().len() <= MAX_REVIEW_LEN,
        parse_review(r.bytes()) == Some(r),
{
    lemma_decode_encode(r, seq![]);
    assert(r.bytes() + Seq::<u8>::empty() =~= r.bytes());
}

/// Storage of ten or more zero bytes decodes as the uninitialized record.
pub proof fn lemma_zeroed_is_uninitialized(b: Seq<u8>)
    requires
        b.len() >= REVIEW_OVERHEAD,
        forall|i: int| 0 <= i < b.len() ==> b[i] == 0,
    ensures
        parse_review(b) == Some(Review::uninitialized()),
{
    assert(b.subrange(6, 6) =~= Seq::<u8>::empty());
    assert(b.subrange(10, 10) =~= Seq::<u8>::empty());
    assert(valid_utf8(Seq::<u8>::empty()));
    assert(decode_utf8(Seq::<u8>::empty()) =~= Seq::<char>::empty());
}

} // verus!
