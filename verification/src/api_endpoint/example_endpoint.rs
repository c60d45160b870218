//! The handlers of the example server.

use vstd::prelude::*;
use vstd::slice::slice_to_vec;
use vstd::utf8::{decode_utf8, encode_utf8, valid_utf8};
use crate::bytes::text;
use crate::headers::{distinct_keys, has_key, put, Entry};
use crate::http_utils::HttpProtocol;
use crate::request::Request;
use crate::response::{Response, ResponseView, StatusCode};

verus! {

/// The text that `String::from_utf8_lossy` makes of `bytes`: what they
/// encode, with a replacement character in the place of each part that is
/// not valid UTF-8.
pub uninterp spec fn lossy_text(bytes: Seq<u8>) -> Seq<char>;

/// `String::from_utf8_lossy` of the standard library. Its result is given
/// the name `lossy_text`; of valid UTF-8 it is the text that the bytes
/// encode, as the documentation of that function says. Neither is proved
/// here.
#[verifier::external_body]
fn utf8_lossy(bytes: &[u8]) -> (r: String)
    ensures
        r@ == lossy_text(bytes@),
        valid_utf8(bytes@) ==> r@ == decode_utf8(bytes@),
{
    String::from_utf8_lossy(bytes).into_owned()
}

/// A byte string as the mirror hands it back: read as text, lossily, and
/// written out again.
pub open spec fn mirrored_bytes(bytes: Seq<u8>) -> Seq<u8> {
    encode_utf8(lossy_text(bytes))
}

/// The headers of the mirrored response: those of the request, put one
/// after the other, each name and each value read as text.
pub open spec fn mirrored_headers(entries: Seq<Entry>) -> Seq<Entry>
    decreases entries.len(),
{
    if entries.len() == 0 {
        Seq::empty()
    } else {
        put(
            mirrored_headers(entries.drop_last()),
            mirrored_bytes(entries.last().0),
            mirrored_bytes(entries.last().1),
        )
    }
}

/// Every name and every value is valid UTF-8.
pub open spec fn all_valid_utf8(entries: Seq<Entry>) -> bool {
    forall|i: int|
        0 <= i < entries.len() ==> valid_utf8((#[trigger] entries[i]).0) && valid_utf8(entries[i].1)
}

/// Headers that the mirror does not change are handed back entry for
/// entry.
proof fn lemma_mirrored_unchanged(entries: Seq<Entry>)
    requires
        distinct_keys(entries),
        forall|i: int|
            0 <= i < entries.len() ==> mirrored_bytes((#[trigger] entries[i]).0) == entries[i].0
                && mirrored_bytes(entries[i].1) == entries[i].1,
    ensures
        mirrored_headers(entries) == entries,
    decreases entries.len(),
{
    if entries.len() > 0 {
        let before = entries.drop_last();
        assert(distinct_keys(before));
        lemma_mirrored_unchanged(before);
        // the last name is new to what stands before it, so it is added at
        // the end
        assert(!has_key(before, entries.last().0));
    }
}

/// Answers with what the request brought: its headers and its body, with
/// the status `OK`.
///
/// Header names and values pass through a lossy reading as text. Where all
/// of them are valid UTF-8, the response has the headers of the request,
/// entry for entry.
pub fn mirror_request(request: &Request) -> (r: Response)
    ensures
        r@ == (ResponseView {
            protocol: HttpProtocol::HTTP1_1,
            status_code: StatusCode::OK,
            headers: mirrored_headers(request.headers.entries()),
            body: request.body@,
        }),
        all_valid_utf8(request.headers.entries()) ==> r@.headers == request.headers.entries(),
{
    let mut response = Response::builder();
    let ghost entries = request.headers.entries();
    let count = request.headers.len();
    let mut i: usize = 0;
    while i < count
        invariant
            entries == request.headers.entries(),
            count == entries.len(),
            i <= count,
            response@.protocol == HttpProtocol::HTTP1_1,
            response@.status_code is None,
            response@.body == Seq::<u8>::empty(),
            response@.headers == mirrored_headers(entries.take(i as int)),
            forall|j: int|
                0 <= j < i && valid_utf8((#[trigger] entries[j]).0) && valid_utf8(entries[j].1)
                    ==> mirrored_bytes(entries[j].0) == entries[j].0 && mirrored_bytes(
                    entries[j].1,
                ) == entries[j].1,
        decreases count - i,
    {
        let (k, v) = request.headers.entry(i);
        let key = utf8_lossy(k);
        let val = utf8_lossy(v);
        proof {
            assert(entries.take(i as int + 1).drop_last() =~= entries.take(i as int));
            if valid_utf8(k@) {
                vstd::utf8::decode_utf8_encode_utf8(k@);
            }
            if valid_utf8(v@) {
                vstd::utf8::decode_utf8_encode_utf8(v@);
            }
        }
        response = response.header(key.as_str(), val.as_str());
        i += 1;
    }
    assert(entries.take(count as int) =~= entries);
    proof {
        if all_valid_utf8(entries) {
            lemma_mirrored_unchanged(entries);
        }
    }
    response = response.body(slice_to_vec(request.body)).status_code(StatusCode::OK);
    match response.build() {
        Ok(response) => response,
        Err(_) => Response::default(),
    }
}

/// The response of the slow endpoint. The caller waits before it hands it
/// out; nothing here does.
pub fn long_time_response() -> (r: Response)
    ensures
        r@ == (ResponseView {
            protocol: HttpProtocol::HTTP1_1,
            status_code: StatusCode::OK,
            headers: seq![(text("Content-Type"), text("text/plain"))],
            body: text("You have sleeped for 500 ms"),
        }),
{
    let body = "You have sleeped for 500 ms";
    let builder = Response::builder().header("Content-Type", "text/plain").status_code(
        StatusCode::OK,
    ).body(body.as_bytes_vec());
    proof {
        assert(put(Seq::<Entry>::empty(), text("Content-Type"), text("text/plain")) =~= seq![
            (text("Content-Type"), text("text/plain")),
        ]);
    }
    match builder.build() {
        Ok(response) => response,
        Err(_) => Response::default(),
    }
}

} // verus!
