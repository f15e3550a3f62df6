//! The record itself and the one operation that creates it.

use vstd::prelude::*;
use crate::schema::utf8_width;
use crate::schema::utf8_byte_len;
use crate::schema::lemma_utf8_width_bound;
use crate::schema::MAX_TOPIC_CHARS;
use crate::schema::MAX_CONTENT_CHARS;

verus! {

/// The persisted record: one post, never mutated or deleted once created.
pub struct Tweet {
    /// Public key of the creating actor.
    pub author: [u8; 32],
    /// Seconds since epoch at creation time, from the host's clock.
    pub timestamp: i64,
    /// Topic text, at most 50 Unicode scalar values.
    pub topic: String,
    /// Content text, at most 280 Unicode scalar values.
    pub content: String,
}

impl Tweet {
    /// Both text fields are within their scalar-value limits.
    pub open spec fn valid(self) -> bool {
        self.topic@.len() <= MAX_TOPIC_CHARS && self.content@.len() <= MAX_CONTENT_CHARS
    }

    /// The unpopulated state of a freshly allocated storage region: every
    /// field still zeroed.
    pub open spec fn is_empty(self) -> bool {
        &&& forall|i: int| 0 <= i < 32 ==> self.author@[i] == 0
        &&& self.timestamp == 0
        &&& self.topic@.len() == 0
        &&& self.content@.len() == 0
    }

    /// Serialized size of this record under the persisted layout: the 8-byte
    /// discriminator, the 32-byte author key, the 8-byte timestamp, then each
    /// text field as a 4-byte length prefix followed by its UTF-8 bytes.
    pub open spec fn spec_serialized_size(self) -> nat {
        8 + 32 + 8 + (4 + utf8_width(self.topic@)) + (4 + utf8_width(self.content@))
    }

    /// Serialized size in bytes of this record under the persisted layout.
    pub fn serialized_size(&self) -> (n: usize)
        requires
            56 + 4 * self.topic@.len() + 4 * self.content@.len() <= usize::MAX,
        ensures
            n as nat == self.spec_serialized_size(),
            self.valid() ==> n <= 1380,
    {
        let topic_bytes = utf8_byte_len(self.topic.as_str());
        let content_bytes = utf8_byte_len(self.content.as_str());
        proof {
            lemma_utf8_width_bound(self.topic@);
            lemma_utf8_width_bound(self.content@);
        }
        8 + 32 + 8 + 4 + topic_bytes + 4 + content_bytes
    }
}

/// Why record creation was refused. Both variants are validation failures
/// the caller must fix before resubmitting; neither is retryable as-is.
#[derive(Clone, Copy, Debug, PartialEq, Eq, Structural)]
pub enum ErrorCode {
    /// The provided topic should be 50 characters long maximum.
    TopicTooLong,
    /// The provided content should be 280 characters long maximum.
    ContentTooLong,
}

/// The inputs the host assembles for one create-record invocation: a freshly
/// allocated record slot and the authenticated author's key. The host has
/// already verified the author's co-signature and funded the slot.
pub struct SendTweet {
    /// Storage region for the record to create, zero-initialized.
    pub tweet: Tweet,
    /// Public key of the signing actor.
    pub author: [u8; 32],
}

impl SendTweet {
    /// A fresh invocation context: the given author key and an unpopulated
    /// record slot, as the host hands them over.
    pub fn new(author: [u8; 32]) -> (ctx: SendTweet)
        ensures
            ctx.author == author,
            ctx.tweet.is_empty(),
    {
        SendTweet {
            tweet: Tweet {
                author: [0u8; 32],
                timestamp: 0,
                topic: String::new(),
                content: String::new(),
            },
            author,
        }
    }
}

/// Create one record on behalf of the signing actor: validate both text
/// fields against their scalar-value limits, then write the author key, the
/// clock value, and both texts into the record slot.
///
/// Validation happens entirely before any write: on failure the context is
/// left exactly as it was, and a too-long topic is reported before a
/// too-long content.
pub fn send_tweet(ctx: &mut SendTweet, topic: String, content: String, unix_timestamp: i64) -> (r:
    Result<(), ErrorCode>)
    ensures
        final(ctx).author == old(ctx).author,
        topic@.len() > MAX_TOPIC_CHARS ==> r == Err::<(), ErrorCode>(ErrorCode::TopicTooLong)
            && *final(ctx) == *old(ctx),
        topic@.len() <= MAX_TOPIC_CHARS && content@.len() > MAX_CONTENT_CHARS ==> r == Err::<
            (),
            ErrorCode,
        >(ErrorCode::ContentTooLong) && *final(ctx) == *old(ctx),
        topic@.len() <= MAX_TOPIC_CHARS && content@.len() <= MAX_CONTENT_CHARS ==> {
            &&& r == Ok::<(), ErrorCode>(())
            &&& final(ctx).tweet.author == old(ctx).author
            &&& final(ctx).tweet.timestamp == unix_timestamp
            &&& final(ctx).tweet.topic@ == topic@
            &&& final(ctx).tweet.content@ == content@
            &&& final(ctx).tweet.valid()
        },
{
    if topic.as_str().unicode_len() > MAX_TOPIC_CHARS {
        return Err(ErrorCode::TopicTooLong);
    }
    if content.as_str().unicode_len() > MAX_CONTENT_CHARS {
        return Err(ErrorCode::ContentTooLong);
    }
    ctx.tweet.author = ctx.author;
    ctx.tweet.timestamp = unix_timestamp;
    ctx.tweet.topic = topic;
    ctx.tweet.content = content;
    Ok(())
}

/// Law: a record whose two text fields meet their limits always fits in the
/// reserved storage: its serialized size never exceeds the 1380 bytes that
/// `required_storage_bytes` reserves.
pub proof fn lemma_valid_record_fits(t: Tweet)
    requires
        t.valid(),
    ensures
        t.spec_serialized_size() <= 1380,
{
    lemma_utf8_width_bound(t.topic@);
    lemma_utf8_width_bound(t.content@);
}

} // verus!
