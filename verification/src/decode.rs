//! Incremental decoding of chunked list-response bodies.
//!
//! A fetch feeds response bytes, chunk by chunk, into a decoder that
//! accumulates them and attempts a full parse after every chunk.  The
//! decoder's feedback is one of four steps: the finished list, a request for
//! more data, a successfully-parsed response of the wrong shape, or a decode
//! failure.  The decoders themselves come from the resource-schema crate and
//! are held opaquely; their buffer contents and creation status are named,
//! and the wrappers state how each call moves them.  The loop that drives a
//! decoder is verified: its result is exactly `spec_drive` of the chunk
//! sequence, and for a body all of whose proper prefixes are still pending
//! — one that is exactly one JSON document — the outcome is independent of
//! where the chunk boundaries fall.

use vstd::prelude::*;

use crate::errors::KubernetesError;
use crate::resources::Event;
use crate::resources::Pod;

verus! {

/// One step of decoder feedback after a chunk has been appended.
#[derive(Debug)]
pub enum ListStep<T> {
    /// A complete list parsed: the contained items, in server order.
    Done(Vec<T>),
    /// The bytes so far do not yet complete a response.
    NeedMore,
    /// A complete response parsed, but not the expected list shape; carries
    /// the rendering of what was decoded.
    WrongShape(String),
    /// The bytes cannot be decoded; carries the rendering of the failure.
    Failed(String),
}

/// Whether an HTTP status code reports success.
pub open spec fn spec_status_success(status: u16) -> bool {
    200 <= status < 300
}

/// The bytes accumulated and not yet consumed in an event decoder.
pub uninterp spec fn event_buf(d: EventDecoder) -> Seq<u8>;

/// The HTTP status code an event decoder was created with.
pub uninterp spec fn event_status(d: EventDecoder) -> u16;

/// The step that parsing an event-list decoder created with `status`, whose
/// buffer holds `bytes`, returns: a function of the status and the bytes
/// alone.
pub uninterp spec fn event_list_outcome(status: u16, bytes: Seq<u8>) -> ListStep<Event>;

/// The bytes accumulated and not yet consumed in a pod decoder.
pub uninterp spec fn pod_buf(d: PodDecoder) -> Seq<u8>;

/// The HTTP status code a pod decoder was created with.
pub uninterp spec fn pod_status(d: PodDecoder) -> u16;

/// The step that parsing a pod-list decoder created with `status`, whose
/// buffer holds `bytes`, returns: a function of the status and the bytes
/// alone.
pub uninterp spec fn pod_list_outcome(status: u16, bytes: Seq<u8>) -> ListStep<Pod>;

/// Holds the resource-schema crate's streaming decoder for event lists.
/// Opaque: `event_buf` and `event_status` name what the contracts track.
#[verifier::external_body]
pub struct EventDecoder {
    inner: k8s_openapi::ResponseBody<
        k8s_openapi::ListResponse<k8s_openapi::api::core::v1::Event>,
    >,
}

/// Holds the resource-schema crate's streaming decoder for pod lists.
/// Opaque: `pod_buf` and `pod_status` name what the contracts track.
#[verifier::external_body]
pub struct PodDecoder {
    inner: k8s_openapi::ResponseBody<k8s_openapi::ListResponse<k8s_openapi::api::core::v1::Pod>>,
}

/// Relies on k8s_openapi's ResponseBody::new: a fresh decoder remembers the
/// status code it was created with and starts with an empty buffer.  The
/// status must be in the valid HTTP range, on which StatusCode::from_u16
/// always succeeds.
#[verifier::external_body]
pub(crate) fn new_event_decoder(status: u16) -> (d: EventDecoder)
    requires
        100 <= status < 1000,
    ensures
        event_buf(d) == Seq::<u8>::empty(),
        event_status(d) == status,
{
    let code = k8s_openapi::http::StatusCode::from_u16(status).unwrap();
    EventDecoder { inner: k8s_openapi::ResponseBody::new(code) }
}

/// Relies on k8s_openapi's ResponseBody::append_slice: the given prefix of
/// `buf` is appended to the decoder's buffer, and nothing else changes.
#[verifier::external_body]
pub(crate) fn event_append(d: &mut EventDecoder, buf: &Vec<u8>, n: usize)
    requires
        n <= buf@.len(),
    ensures
        event_buf(*final(d)) == event_buf(*old(d)) + buf@.take(n as int),
        event_status(*final(d)) == event_status(*old(d)),
{
    d.inner.append_slice(&buf[..n]);
}

/// Relies on k8s_openapi's ResponseBody::parse: the step is a function of
/// the decoder's status and buffered bytes alone, and a `NeedMore` step
/// leaves the buffer as it was.  Event items are handed out as the library's
/// plain records; an event's time becomes whole microseconds through
/// chrono's timestamp_micros.
#[verifier::external_body]
pub(crate) fn event_parse(d: &mut EventDecoder) -> (r: ListStep<Event>)
    ensures
        r == event_list_outcome(event_status(*old(d)), event_buf(*old(d))),
        event_status(*final(d)) == event_status(*old(d)),
        r is NeedMore ==> event_buf(*final(d)) == event_buf(*old(d)),
{
    match d.inner.parse() {
        Ok(k8s_openapi::ListResponse::Ok(list)) => ListStep::Done(
            list.items.into_iter().map(|e| Event {
                name: e.metadata.name,
                namespace: e.metadata.namespace,
                reason: e.reason,
                message: e.message,
                event_time_micros: e.event_time.map(|t| t.0.timestamp_micros()),
            }).collect(),
        ),
        Ok(other) => ListStep::WrongShape(format!("{:?}", other)),
        Err(k8s_openapi::ResponseError::NeedMoreData) => ListStep::NeedMore,
        Err(err) => ListStep::Failed(format!("{:?}", err)),
    }
}

/// Relies on k8s_openapi's ResponseBody::new: a fresh decoder remembers the
/// status code it was created with and starts with an empty buffer.  The
/// status must be in the valid HTTP range, on which StatusCode::from_u16
/// always succeeds.
#[verifier::external_body]
pub(crate) fn new_pod_decoder(status: u16) -> (d: PodDecoder)
    requires
        100 <= status < 1000,
    ensures
        pod_buf(d) == Seq::<u8>::empty(),
        pod_status(d) == status,
{
    let code = k8s_openapi::http::StatusCode::from_u16(status).unwrap();
    PodDecoder { inner: k8s_openapi::ResponseBody::new(code) }
}

/// Relies on k8s_openapi's ResponseBody::append_slice: the given prefix of
/// `buf` is appended to the decoder's buffer, and nothing else changes.
#[verifier::external_body]
pub(crate) fn pod_append(d: &mut PodDecoder, buf: &Vec<u8>, n: usize)
    requires
        n <= buf@.len(),
    ensures
        pod_buf(*final(d)) == pod_buf(*old(d)) + buf@.take(n as int),
        pod_status(*final(d)) == pod_status(*old(d)),
{
    d.inner.append_slice(&buf[..n]);
}

/// Relies on k8s_openapi's ResponseBody::parse: the step is a function of
/// the decoder's status and buffered bytes alone, and a `NeedMore` step
/// leaves the buffer as it was.  Pod items are handed out as the library's
/// plain records; the phase comes from the pod's status.
#[verifier::external_body]
pub(crate) fn pod_parse(d: &mut PodDecoder) -> (r: ListStep<Pod>)
    ensures
        r == pod_list_outcome(pod_status(*old(d)), pod_buf(*old(d))),
        pod_status(*final(d)) == pod_status(*old(d)),
        r is NeedMore ==> pod_buf(*final(d)) == pod_buf(*old(d)),
{
    match d.inner.parse() {
        Ok(k8s_openapi::ListResponse::Ok(list)) => ListStep::Done(
            list.items.into_iter().map(|p| Pod {
                name: p.metadata.name,
                namespace: p.metadata.namespace,
                phase: p.status.and_then(|s| s.phase),
            }).collect(),
        ),
        Ok(other) => ListStep::WrongShape(format!("{:?}", other)),
        Err(k8s_openapi::ResponseError::NeedMoreData) => ListStep::NeedMore,
        Err(err) => ListStep::Failed(format!("{:?}", err)),
    }
}

/// The parse outcome of an event decoder created with `status`, as a
/// predicate on the buffered bytes.
pub open spec fn event_outcome_fn(status: u16) -> spec_fn(Seq<u8>) -> ListStep<Event> {
    |b: Seq<u8>| event_list_outcome(status, b)
}

/// The parse outcome of a pod decoder created with `status`, as a predicate
/// on the buffered bytes.
pub open spec fn pod_outcome_fn(status: u16) -> spec_fn(Seq<u8>) -> ListStep<Pod> {
    |b: Seq<u8>| pod_list_outcome(status, b)
}

/// The concatenation of a sequence of chunks.
pub open spec fn spec_concat_chunks(chunks: Seq<Seq<u8>>) -> Seq<u8>
    decreases chunks.len(),
{
    if chunks.len() == 0 {
        Seq::<u8>::empty()
    } else {
        chunks.first() + spec_concat_chunks(chunks.drop_first())
    }
}

/// Driving a decoder whose buffer holds `buf` over `chunks`: each chunk is
/// appended and a parse attempted; the first step that is not `NeedMore`
/// ends the drive.  Running out of chunks with a parse still pending is
/// `NeedMore` — the caller treats that starved end as a parse error.
pub open spec fn spec_drive<T>(
    outcome: spec_fn(Seq<u8>) -> ListStep<T>,
    buf: Seq<u8>,
    chunks: Seq<Seq<u8>>,
) -> ListStep<T>
    decreases chunks.len(),
{
    if chunks.len() == 0 {
        ListStep::NeedMore
    } else {
        let fed = buf + chunks.first();
        if outcome(fed) is NeedMore {
            spec_drive(outcome, fed, chunks.drop_first())
        } else {
            outcome(fed)
        }
    }
}

/// All proper prefixes of `total` leave the decode pending: parsing any
/// truncation of it yields `NeedMore`.  This is the property of a body that
/// is exactly one JSON document, whose every truncation is incomplete; it
/// fails for a body with trailing bytes after the document, where an
/// earlier prefix is already decisive, and there chunk boundaries really
/// can change the outcome.
pub open spec fn spec_prefixes_pending<T>(
    outcome: spec_fn(Seq<u8>) -> ListStep<T>,
    total: Seq<u8>,
) -> bool {
    forall|i: int| 0 <= i < total.len() ==> (#[trigger] outcome(total.take(i))) is NeedMore
}

/// A drive whose remaining chunks add no bytes, started on a buffer whose
/// parse is still pending, stays pending.
proof fn lemma_drive_stays_pending<T>(
    outcome: spec_fn(Seq<u8>) -> ListStep<T>,
    buf: Seq<u8>,
    chunks: Seq<Seq<u8>>,
)
    requires
        spec_concat_chunks(chunks) == Seq::<u8>::empty(),
        outcome(buf) is NeedMore,
    ensures
        spec_drive(outcome, buf, chunks) == ListStep::<T>::NeedMore,
    decreases chunks.len(),
{
    if chunks.len() > 0 {
        let rest = chunks.drop_first();
        assert(spec_concat_chunks(chunks) == chunks.first() + spec_concat_chunks(rest));
        assert(chunks.first().len() == 0);
        assert(buf + chunks.first() =~= buf);
        assert(spec_concat_chunks(rest) =~= Seq::<u8>::empty());
        lemma_drive_stays_pending(outcome, buf, rest);
    }
}

/// For a body all of whose proper prefixes are pending, a drive over at
/// least one chunk of it ends where parsing the whole body ends:
/// decisively with that very step, or starved if even the full body is
/// still pending.  `buf` is what has been fed so far; the chunks carry the
/// rest of the body.
pub proof fn lemma_drive_of_pending_prefixes<T>(
    outcome: spec_fn(Seq<u8>) -> ListStep<T>,
    buf: Seq<u8>,
    chunks: Seq<Seq<u8>>,
    total: Seq<u8>,
)
    requires
        spec_prefixes_pending(outcome, total),
        buf + spec_concat_chunks(chunks) == total,
        chunks.len() > 0,
    ensures
        spec_drive(outcome, buf, chunks) == (if outcome(total) is NeedMore {
            ListStep::<T>::NeedMore
        } else {
            outcome(total)
        }),
    decreases chunks.len(),
{
    let fed = buf + chunks.first();
    let rest = chunks.drop_first();
    assert(spec_drive(outcome, buf, chunks) == (if outcome(fed) is NeedMore {
        spec_drive(outcome, fed, rest)
    } else {
        outcome(fed)
    }));
    assert(spec_concat_chunks(chunks) == chunks.first() + spec_concat_chunks(rest));
    assert(fed + spec_concat_chunks(rest) =~= total);
    if fed.len() == total.len() {
        assert(spec_concat_chunks(rest).len() == 0);
        assert(fed =~= total);
        if outcome(total) is NeedMore {
            assert(spec_concat_chunks(rest) =~= Seq::<u8>::empty());
            lemma_drive_stays_pending(outcome, fed, rest);
        }
    } else {
        assert(fed.len() < total.len());
        assert(total.take(fed.len() as int) =~= fed);
        assert(outcome(total.take(fed.len() as int)) is NeedMore);
        assert(outcome(fed) is NeedMore);
        if rest.len() == 0 {
            assert(spec_concat_chunks(rest) == Seq::<u8>::empty());
            assert(fed.len() == total.len());
        }
        lemma_drive_of_pending_prefixes(outcome, fed, rest, total);
    }
}

/// Chunk boundaries do not matter: for a body all of whose proper prefixes
/// are pending, driving a fresh decoder over any two chunkings of it ends
/// in the same step.
pub proof fn lemma_chunking_independent<T>(
    outcome: spec_fn(Seq<u8>) -> ListStep<T>,
    chunks1: Seq<Seq<u8>>,
    chunks2: Seq<Seq<u8>>,
)
    requires
        chunks1.len() > 0,
        chunks2.len() > 0,
        spec_concat_chunks(chunks1) == spec_concat_chunks(chunks2),
        spec_prefixes_pending(outcome, spec_concat_chunks(chunks1)),
    ensures
        spec_drive(outcome, Seq::<u8>::empty(), chunks1) == spec_drive(
            outcome,
            Seq::<u8>::empty(),
            chunks2,
        ),
{
    let total = spec_concat_chunks(chunks1);
    assert(Seq::<u8>::empty() + spec_concat_chunks(chunks1) =~= total);
    assert(Seq::<u8>::empty() + spec_concat_chunks(chunks2) =~= total);
    lemma_drive_of_pending_prefixes(outcome, Seq::<u8>::empty(), chunks1, total);
    lemma_drive_of_pending_prefixes(outcome, Seq::<u8>::empty(), chunks2, total);
}

/// What decoding a status and a chunked body must return, given the decode
/// outcome `drive` of the chunks: a failing status is reported without
/// touching the body; a decisive parse gives exactly the items or the
/// corresponding parse error; a starved drive — the chunks ran out with the
/// parse still pending — is a parse error as well.
pub open spec fn decode_post<T>(
    status: u16,
    drive: ListStep<T>,
    r: Result<Vec<T>, KubernetesError>,
) -> bool {
    if !spec_status_success(status) {
        r matches Err(e) && e is HttpClientRequestError
    } else {
        match drive {
            ListStep::Done(items) => r matches Ok(v) && v == items,
            ListStep::NeedMore => r matches Err(e) && (e matches
                KubernetesError::HttpClientParseResponseError { message } && message@
                == "response body ended while more data was expected"@),
            ListStep::WrongShape(m) => r matches Err(e) && (e matches
                KubernetesError::HttpClientParseResponseError { message } && message@
                == "expected Ok but got "@ + m@),
            ListStep::Failed(m) => r matches Err(e) && (e matches
                KubernetesError::HttpClientParseResponseError { message } && message@ == "error: "@
                + m@),
        }
    }
}

/// The parse errors a body-reading drain can return, given the decode
/// outcome of the decoder it feeds: the stream ended (or the retry budget
/// ran out) with the parse still pending, a read failed with its rendered
/// diagnostic, or some accumulated bytes parsed decisively to a non-list
/// step, whose text the message carries behind the fixed prefix.
pub open spec fn drain_err_post<T>(
    outcome: spec_fn(Seq<u8>) -> ListStep<T>,
    e: KubernetesError,
) -> bool {
    e matches KubernetesError::HttpClientParseResponseError { message } && (message@
        == "response body ended while more data was expected"@ || message@
        == "response body did not complete"@ || (exists|diag: Seq<char>|
        message@ == "Got error: "@ + diag) || (exists|bytes: Seq<u8>|
        (#[trigger] outcome(bytes)) matches ListStep::WrongShape(m) && message@
            == "expected Ok but got "@ + m@) || (exists|bytes: Seq<u8>|
        (#[trigger] outcome(bytes)) matches ListStep::Failed(m) && message@ == "error: "@ + m@))
}

/// Decodes an event-list response body supplied as explicit chunks.  The
/// result is `decode_post` of `spec_drive` over the chunks: in particular a
/// non-success status fails with `HttpClientRequestError` before any chunk
/// is examined, and the decoded list depends only on the drive of the chunk
/// sequence.
pub fn decode_event_chunks(status: u16, chunks: &Vec<Vec<u8>>) -> (r: Result<
    Vec<Event>,
    KubernetesError,
>)
    ensures
        decode_post(
            status,
            spec_drive(event_outcome_fn(status), Seq::<u8>::empty(), chunks.deep_view()),
            r,
        ),
{
    let ghost f = event_outcome_fn(status);
    let ghost all = chunks.deep_view();
    if !(200 <= status && status < 300) {
        return Err(KubernetesError::HttpClientRequestError);
    }
    let mut d = new_event_decoder(status);
    let mut i: usize = 0;
    proof {
        assert(all.skip(0) =~= all);
    }
    loop
        invariant
            i <= all.len(),
            all == chunks.deep_view(),
            spec_status_success(status),
            f == event_outcome_fn(status),
            event_status(d) == status,
            spec_drive(f, Seq::<u8>::empty(), all) == spec_drive(f, event_buf(d), all.skip(i as int)),
        ensures
            spec_drive(f, Seq::<u8>::empty(), all) == ListStep::<Event>::NeedMore,
        decreases all.len() - i,
    {
        if i >= chunks.len() {
            proof {
                assert(all.skip(i as int).len() == 0);
            }
            break;
        }
        let chunk = &chunks[i];
        let n = chunk.len();
        proof {
            assert(chunk@.take(n as int) =~= chunk@);
            assert(all.skip(i as int).first() == chunk@);
            assert(all.skip(i as int).drop_first() =~= all.skip(i + 1 as int));
        }
        let ghost before = event_buf(d);
        event_append(&mut d, chunk, n);
        let ghost fed = event_buf(d);
        let step = event_parse(&mut d);
        proof {
            assert(fed =~= before + chunk@);
            assert(step == f(fed));
            assert(spec_drive(f, before, all.skip(i as int)) == (if f(fed) is NeedMore {
                spec_drive(f, fed, all.skip(i + 1 as int))
            } else {
                f(fed)
            }));
        }
        match step {
            ListStep::Done(items) => {
                return Ok(items);
            },
            ListStep::NeedMore => {
            },
            ListStep::WrongShape(m) => {
                let message = String::from_str("expected Ok but got ").concat(m.as_str());
                return Err(KubernetesError::HttpClientParseResponseError { message });
            },
            ListStep::Failed(m) => {
                let message = String::from_str("error: ").concat(m.as_str());
                return Err(KubernetesError::HttpClientParseResponseError { message });
            },
        }
        i = i + 1;
    }
    let message = String::from_str("response body ended while more data was expected");
    Err(KubernetesError::HttpClientParseResponseError { message })
}

/// Decodes a pod-list response body supplied as explicit chunks, exactly as
/// `decode_event_chunks` does for events.
pub fn decode_pod_chunks(status: u16, chunks: &Vec<Vec<u8>>) -> (r: Result<
    Vec<Pod>,
    KubernetesError,
>)
    ensures
        decode_post(
            status,
            spec_drive(pod_outcome_fn(status), Seq::<u8>::empty(), chunks.deep_view()),
            r,
        ),
{
    let ghost f = pod_outcome_fn(status);
    let ghost all = chunks.deep_view();
    if !(200 <= status && status < 300) {
        return Err(KubernetesError::HttpClientRequestError);
    }
    let mut d = new_pod_decoder(status);
    let mut i: usize = 0;
    proof {
        assert(all.skip(0) =~= all);
    }
    loop
        invariant
            i <= all.len(),
            all == chunks.deep_view(),
            spec_status_success(status),
            f == pod_outcome_fn(status),
            pod_status(d) == status,
            spec_drive(f, Seq::<u8>::empty(), all) == spec_drive(f, pod_buf(d), all.skip(i as int)),
        ensures
            spec_drive(f, Seq::<u8>::empty(), all) == ListStep::<Pod>::NeedMore,
        decreases all.len() - i,
    {
        if i >= chunks.len() {
            proof {
                assert(all.skip(i as int).len() == 0);
            }
            break;
        }
        let chunk = &chunks[i];
        let n = chunk.len();
        proof {
            assert(chunk@.take(n as int) =~= chunk@);
            assert(all.skip(i as int).first() == chunk@);
            assert(all.skip(i as int).drop_first() =~= all.skip(i + 1 as int));
        }
        let ghost before = pod_buf(d);
        pod_append(&mut d, chunk, n);
        let ghost fed = pod_buf(d);
        let step = pod_parse(&mut d);
        proof {
            assert(fed =~= before + chunk@);
            assert(step == f(fed));
            assert(spec_drive(f, before, all.skip(i as int)) == (if f(fed) is NeedMore {
                spec_drive(f, fed, all.skip(i + 1 as int))
            } else {
                f(fed)
            }));
        }
        match step {
            ListStep::Done(items) => {
                return Ok(items);
            },
            ListStep::NeedMore => {
            },
            ListStep::WrongShape(m) => {
                let message = String::from_str("expected Ok but got ").concat(m.as_str());
                return Err(KubernetesError::HttpClientParseResponseError { message });
            },
            ListStep::Failed(m) => {
                let message = String::from_str("error: ").concat(m.as_str());
                return Err(KubernetesError::HttpClientParseResponseError { message });
            },
        }
        i = i + 1;
    }
    let message = String::from_str("response body ended while more data was expected");
    Err(KubernetesError::HttpClientParseResponseError { message })
}

} // verus!
