//! What the app-server writes to its standard error: how much is kept, and how it is reported.

use crate::text::{
    compact, compacted, compaction_leaves_single_spaces, first_chars, from_utf8_lossy,
    has_single_spaces, is_white_space, lossy_utf8,
};
use vstd::prelude::*;
use vstd::slice::*;
use vstd::string::*;
use vstd::utf8::*;

verus! {

/// How many bytes of the standard error are kept.
pub const MAX_CAPTURE_BYTES: usize = 1_048_576;

/// How many characters of the standard error are reported.
pub const MAX_REPORT_CHARS: usize = 500;

/// The first `limit` bytes, or all of them if there are fewer.
pub open spec fn clipped(bytes: Seq<u8>, limit: nat) -> Seq<u8> {
    if bytes.len() <= limit {
        bytes
    } else {
        bytes.take(limit as int)
    }
}

/// The start of an output that is read chunk by chunk.
#[derive(Debug)]
pub struct LimitedCapture {
    kept: Vec<u8>,
    limit: usize,
}

impl LimitedCapture {
    /// The bytes that are kept.
    pub closed spec fn view(&self) -> Seq<u8> {
        self.kept@
    }

    /// How many bytes are kept at most.
    pub closed spec fn limit(&self) -> nat {
        self.limit as nat
    }

    #[verifier::type_invariant]
    spec fn is_within(self) -> bool {
        self.kept@.len() <= self.limit
    }

    /// Keeps nothing yet, and at most `limit` bytes later.
    pub fn new(limit: usize) -> (capture: LimitedCapture)
        ensures
            capture@ == Seq::<u8>::empty(),
            capture.limit() == limit,
    {
        LimitedCapture { kept: Vec::new(), limit }
    }

    /// Takes the next chunk, as far as there is room for it.
    pub fn take(self, chunk: &[u8]) -> (capture: LimitedCapture)
        ensures
            capture@ == clipped(self@ + chunk@, self.limit()),
            capture@.len() <= self.limit(),
            capture.limit() == self.limit(),
    {
        proof {
            use_type_invariant(&self);
        }
        let limit = self.limit;
        let mut kept = self.kept;
        let remaining: usize = limit - kept.len();
        let room: usize = if chunk.len() < remaining {
            chunk.len()
        } else {
            remaining
        };
        let fitting = slice_subrange(chunk, 0, room);
        kept.extend_from_slice(fitting);
        assert(kept@ == clipped(self@ + chunk@, self.limit()));
        LimitedCapture { kept, limit }
    }

    /// The bytes that were kept.
    pub fn into_bytes(self) -> (bytes: Vec<u8>)
        ensures
            bytes@ == self@,
    {
        self.kept
    }
}

/// What is kept of the chunks, taken one after the other.
pub open spec fn captured(chunks: Seq<Seq<u8>>, limit: nat) -> Seq<u8>
    decreases chunks.len(),
{
    if chunks.len() == 0 {
        Seq::empty()
    } else {
        clipped(captured(chunks.drop_last(), limit) + chunks.last(), limit)
    }
}

/// The chunks, put together.
pub open spec fn whole(chunks: Seq<Seq<u8>>) -> Seq<u8>
    decreases chunks.len(),
{
    if chunks.len() == 0 {
        Seq::empty()
    } else {
        whole(chunks.drop_last()) + chunks.last()
    }
}

/// However an output is cut into chunks, what is kept of it is its start.
pub proof fn capture_is_the_start(chunks: Seq<Seq<u8>>, limit: nat)
    ensures
        captured(chunks, limit) == clipped(whole(chunks), limit),
    decreases chunks.len(),
{
    if chunks.len() > 0 {
        capture_is_the_start(chunks.drop_last(), limit);
        assert(clipped(clipped(whole(chunks.drop_last()), limit) + chunks.last(), limit)
            == clipped(whole(chunks), limit));
    }
}

/// How a failure is reported for a standard error that reads as `text`: its words on one line, up
/// to 500 characters.
pub open spec fn provider_error_wording(label: Seq<char>, text: Seq<char>) -> Seq<char> {
    let short = compacted(text);
    if short.len() == 0 {
        label + " failed"@
    } else {
        label + " failed: "@ + (if MAX_REPORT_CHARS <= short.len() {
            short.take(MAX_REPORT_CHARS as int)
        } else {
            short
        })
    }
}

/// Reports a failure for a standard error that reads as `text`.
pub fn provider_error_text(label: &str, text: &str) -> (report: String)
    ensures
        report@ == provider_error_wording(label@, text@),
{
    let short = compact(text);
    if short.as_str().is_empty() {
        label.to_string().concat(" failed")
    } else {
        label.to_string().concat(" failed: ").concat(
            first_chars(short.as_str(), MAX_REPORT_CHARS),
        )
    }
}

/// Reports a failure for a standard error.
pub fn provider_error(label: &str, stderr: &[u8]) -> (report: String)
    ensures
        report@ == provider_error_wording(label@, lossy_utf8(stderr@)),
        valid_utf8(stderr@) ==> report@ == provider_error_wording(label@, decode_utf8(stderr@)),
{
    let text = from_utf8_lossy(stderr);
    provider_error_text(label, text.as_str())
}

/// However much was written, its report is short.
pub proof fn reports_are_short(label: Seq<char>, text: Seq<char>)
    ensures
        provider_error_wording(label, text).len() <= label.len() + 9 + MAX_REPORT_CHARS,
{
    reveal_strlit(" failed");
    reveal_strlit(" failed: ");
    assert(" failed"@.len() == 7);
    assert(" failed: "@.len() == 9);
}

/// Whatever was written, its report is on one line: all white space after the label is single
/// spaces.
pub proof fn reports_are_on_one_line(label: Seq<char>, text: Seq<char>)
    ensures
        label.is_prefix_of(provider_error_wording(label, text)),
        has_single_spaces(provider_error_wording(label, text).skip(label.len() as int)),
{
    let report = provider_error_wording(label, text);
    let rest = report.skip(label.len() as int);
    let short = compacted(text);
    assert(label == report.subrange(0, label.len() as int));
    reveal_strlit(" failed");
    reveal_strlit(" failed: ");
    assert(" failed"@.len() == 7);
    assert(" failed: "@.len() == 9);
    compaction_leaves_single_spaces(text);
    if short.len() == 0 {
        assert(rest == " failed"@);
    } else {
        assert(rest.take(9) == " failed: "@);
        assert(forall|i: int| 0 <= i < 9 ==> rest[i] == " failed: "@[i]);
        assert(forall|i: int| 9 <= i < rest.len() ==> rest[i] == short[i - 9]);
        assert forall|i: int| 0 <= i < rest.len() && is_white_space(#[trigger] rest[i]) implies
            rest[i] == ' ' && (i > 0 ==> !is_white_space(rest[i - 1])) by {
            if i > 9 {
                assert(rest[i - 1] == short[i - 10]);
            } else if i == 9 {
                assert(rest[i] == short[0]);
            } else {
                assert(rest[i] == " failed: "@[i]);
            }
        }
    }
}

/// What is kept of an output is a first stretch of it, as long as the limit allows and no longer,
/// however it came in.
pub proof fn a_capture_is_as_long_as_it_may_be(chunks: Seq<Seq<u8>>, limit: nat)
    ensures
        captured(chunks, limit).is_prefix_of(whole(chunks)),
        whole(chunks).len() <= limit ==> captured(chunks, limit) == whole(chunks),
        whole(chunks).len() > limit ==> captured(chunks, limit).len() == limit,
{
    capture_is_the_start(chunks, limit);
    let kept = captured(chunks, limit);
    assert(kept == whole(chunks).subrange(0, kept.len() as int));
}

/// A chunk that is taken comes after what was kept before, as far as there is room: nothing that
/// was kept is lost, and nothing that fits is left out.
pub proof fn a_chunk_is_taken_as_far_as_it_fits(kept: Seq<u8>, chunk: Seq<u8>, limit: nat)
    requires
        kept.len() <= limit,
    ensures
        kept.is_prefix_of(clipped(kept + chunk, limit)),
        clipped(kept + chunk, limit).is_prefix_of(kept + chunk),
        kept.len() + chunk.len() <= limit ==> clipped(kept + chunk, limit) == kept + chunk,
        kept.len() + chunk.len() > limit ==> clipped(kept + chunk, limit).len() == limit,
{
    let now = clipped(kept + chunk, limit);
    assert(kept == now.subrange(0, kept.len() as int));
    assert(now == (kept + chunk).subrange(0, now.len() as int));
}

/// The chunks of an output stand one after the other.
pub proof fn an_output_is_all_of_its_chunks(chunks: Seq<Seq<u8>>, chunk: Seq<u8>)
    ensures
        whole(Seq::empty()) == Seq::<u8>::empty(),
        whole(chunks.push(chunk)) == whole(chunks) + chunk,
{
    assert(chunks.push(chunk).drop_last() == chunks);
}

/// A report names who failed, and then says what was written, from its start: all of it if it has
/// at most 500 characters once it is compacted, and else the first 500. Where nothing was written
/// but white space, it says no more than that there was a failure.
pub proof fn a_report_says_what_was_written(label: Seq<char>, text: Seq<char>)
    ensures
        compacted(text).len() == 0 ==> provider_error_wording(label, text) == label + " failed"@,
        0 < compacted(text).len() <= 500 ==> provider_error_wording(label, text) == label
            + " failed: "@ + compacted(text),
        compacted(text).len() > 500 ==> provider_error_wording(label, text) == label
            + " failed: "@ + compacted(text).take(500),
        MAX_CAPTURE_BYTES == 1024 * 1024,
{
    if compacted(text).len() == 500 {
        assert(compacted(text).take(500) == compacted(text));
    }
}

} // verus!
