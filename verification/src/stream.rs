//! Fetching a blob whose body arrives in chunks, with progress reported.
//!
//! A [`StreamFetch`] stands for a request that is yet to be answered. Told a
//! status that calls for the body, it becomes a [`Receiving`], which takes the
//! chunks one by one and says for each what to tell the observer. The end of
//! the stream makes it an [`Assembled`], which holds the whole body and is
//! judged last; a failure on the way makes it an [`Aborted`]. Both say
//! whether an observer is to be released, and every way through passes
//! exactly one of them.

use crate::digest::{Digest, DigestView};
use crate::error::{outcome_view, Error, ErrorView, TransportFailure};
use crate::fetch::{conclude, fetched, outcome, response_view, screen, screened};
use crate::request::{Method, Request};
use crate::status::body_wanted;
use vstd::prelude::*;

verus! {

/// A streamed fetch as a mathematical value: what is asked for, where, and
/// whether anyone watches the progress.
pub struct StreamFetchView {
    pub digest: DigestView,
    pub url: Seq<char>,
    pub observed: bool,
}

/// A streamed fetch whose body is arriving, as a mathematical value.
pub struct ReceivingView {
    pub digest: DigestView,
    pub status: u16,
    pub observed: bool,
    pub body: Seq<u8>,
}

/// A streamed fetch that ended before its body was complete, as a
/// mathematical value.
pub struct AbortedView {
    pub release_observer: bool,
    pub error: ErrorView,
}

/// A streamed fetch whose body is complete, as a mathematical value.
pub struct AssembledView {
    pub digest: DigestView,
    pub status: u16,
    pub body: Seq<u8>,
    pub release_observer: bool,
}

/// What the observer of a streamed fetch is told.
pub enum Signal {
    /// A chunk of this many bytes has arrived.
    Notify(nat),
    /// Nothing more will come: the sending side is released.
    Release,
}

/// What the observer is told of a chunk: its length, if there is an observer.
pub open spec fn notification(observed: bool, chunk: Seq<u8>) -> Option<nat> {
    if observed {
        Some(chunk.len())
    } else {
        None
    }
}

impl ReceivingView {
    /// The fetch after one more chunk: the chunk stands at the end of the
    /// body.
    pub open spec fn after_chunk(self, chunk: Seq<u8>) -> ReceivingView {
        ReceivingView { body: self.body + chunk, ..self }
    }

    /// The fetch after the stream has ended: the observer is released, and
    /// what has arrived is the whole body.
    pub open spec fn ended(self) -> AssembledView {
        AssembledView {
            digest: self.digest,
            status: self.status,
            body: self.body,
            release_observer: self.observed,
        }
    }

    /// The fetch after the transport has failed while chunks were arriving:
    /// the observer is released, and what has arrived is dropped.
    pub open spec fn failed(self) -> AbortedView {
        AbortedView { release_observer: self.observed, error: ErrorView::DownloadFailed }
    }
}

impl AssembledView {
    /// The result of the fetch: the body is classified and checked as one
    /// read in one piece would be.
    pub open spec fn finished(self) -> Result<Seq<u8>, ErrorView> {
        outcome(self.digest, self.status, self.body)
    }
}

impl StreamFetchView {
    /// The fetch after the transport has reported on the request: receiving,
    /// with nothing received yet, or aborted before any of the body is read.
    pub open spec fn after_response(self, response: Result<u16, Seq<char>>) -> Result<
        ReceivingView,
        AbortedView,
    > {
        match screened(response) {
            Ok(status) => Ok(
                ReceivingView {
                    digest: self.digest,
                    status,
                    observed: self.observed,
                    body: Seq::empty(),
                },
            ),
            Err(error) => Err(AbortedView { release_observer: self.observed, error }),
        }
    }
}

/// A streamed fetch whose request is yet to be answered.
#[derive(Debug, PartialEq, Eq)]
pub struct StreamFetch {
    digest: Digest,
    url: String,
    observed: bool,
}

impl View for StreamFetch {
    type V = StreamFetchView;

    closed spec fn view(&self) -> StreamFetchView {
        StreamFetchView { digest: self.digest@, url: self.url@, observed: self.observed }
    }
}

/// A streamed fetch whose body is arriving.
#[derive(Debug, PartialEq, Eq)]
pub struct Receiving {
    digest: Digest,
    status: u16,
    observed: bool,
    body: Vec<u8>,
}

impl View for Receiving {
    type V = ReceivingView;

    closed spec fn view(&self) -> ReceivingView {
        ReceivingView {
            digest: self.digest@,
            status: self.status,
            observed: self.observed,
            body: self.body@,
        }
    }
}

/// A streamed fetch that ended before its body was complete: why, and
/// whether an observer is to be released.
#[derive(Debug, PartialEq, Eq)]
pub struct Aborted {
    pub release_observer: bool,
    pub error: Error,
}

impl View for Aborted {
    type V = AbortedView;

    open spec fn view(&self) -> AbortedView {
        AbortedView { release_observer: self.release_observer, error: self.error@ }
    }
}

/// A streamed fetch whose stream has ended. It holds the whole body, which is
/// yet to be judged, and says whether an observer is to be released: that
/// does not wait for the judgement.
#[derive(Debug, PartialEq, Eq)]
pub struct Assembled {
    digest: Digest,
    status: u16,
    body: Vec<u8>,
    release_observer: bool,
}

impl View for Assembled {
    type V = AssembledView;

    closed spec fn view(&self) -> AssembledView {
        AssembledView {
            digest: self.digest@,
            status: self.status,
            body: self.body@,
            release_observer: self.release_observer,
        }
    }
}

impl StreamFetch {
    /// A streamed fetch of the blob `digest`, to be asked for at `url`.
    /// `observed` says whether an observer is to hear of the progress.
    pub fn new(digest: Digest, url: String, observed: bool) -> (fetch: StreamFetch)
        ensures
            fetch@ == (StreamFetchView { digest: digest@, url: url@, observed }),
    {
        StreamFetch { digest, url, observed }
    }

    /// The request to send.
    pub fn request(&self) -> (request: Request)
        ensures
            request.method == Method::Get,
            request.url@ == self@.url,
    {
        Request { method: Method::Get, url: self.url.clone() }
    }

    /// The digest that the blob is checked against.
    pub fn digest(&self) -> (digest: &Digest)
        ensures
            digest@ == self@.digest,
    {
        &self.digest
    }

    /// Whether an observer hears of the progress.
    pub fn observed(&self) -> (observed: bool)
        ensures
            observed == self@.observed,
    {
        self.observed
    }

    /// Takes what the transport reports of the request: the status of the
    /// response, or its own failure. The fetch goes on to the chunks where
    /// the status is a success or a client error. On every other status, and
    /// where the transport failed, it is aborted: the observer is released
    /// and no chunk is read.
    pub fn on_response(self, response: Result<u16, TransportFailure>) -> (next: Result<
        Receiving,
        Aborted,
    >)
        ensures
            match next {
                Ok(receiving) => self@.after_response(response_view(response)) == Ok::<
                    ReceivingView,
                    AbortedView,
                >(receiving@),
                Err(aborted) => self@.after_response(response_view(response)) == Err::<
                    ReceivingView,
                    AbortedView,
                >(aborted@),
            },
    {
        match screen(response) {
            Ok(status) => Ok(
                Receiving {
                    digest: self.digest,
                    status,
                    observed: self.observed,
                    body: Vec::new(),
                },
            ),
            Err(error) => Err(Aborted { release_observer: self.observed, error }),
        }
    }
}

impl Receiving {
    /// The status is one that calls for the body.
    #[verifier::type_invariant]
    spec fn wants_body(&self) -> bool {
        body_wanted(self.status)
    }

    /// The status of the response: a success or a client error.
    pub fn status(&self) -> (status: u16)
        ensures
            status == self@.status,
            body_wanted(status),
    {
        proof {
            use_type_invariant(self);
        }
        self.status
    }

    /// The number of bytes received so far.
    pub fn received(&self) -> (n: usize)
        ensures
            n == self@.body.len(),
    {
        self.body.len()
    }

    /// Takes one chunk of the body and puts it at the end of what has been
    /// received. Hands back the fetch as it then is and what the observer is
    /// to be told: the number of bytes in this chunk, once for each chunk, or
    /// nothing where no observer is attached.
    pub fn on_chunk(self, chunk: &[u8]) -> (next: (Receiving, Option<u64>))
        ensures
            next.0@ == self@.after_chunk(chunk@),
            match next.1 {
                Some(n) => notification(self@.observed, chunk@) == Some(n as nat),
                None => notification(self@.observed, chunk@) is None,
            },
    {
        proof {
            use_type_invariant(&self);
        }
        let Receiving { digest, status, observed, mut body } = self;
        let ghost before = body@;
        body.extend_from_slice(chunk);
        assert(body@ =~= before + chunk@);
        let notify = if observed {
            Some(chunk.len() as u64)
        } else {
            None
        };
        (Receiving { digest, status, observed, body }, notify)
    }

    /// Takes the end of the stream: what has arrived is the whole body. The
    /// observer is released now, before the body is judged.
    pub fn on_end(self) -> (assembled: Assembled)
        ensures
            assembled@ == self@.ended(),
    {
        proof {
            use_type_invariant(&self);
        }
        Assembled {
            digest: self.digest,
            status: self.status,
            body: self.body,
            release_observer: self.observed,
        }
    }

    /// Takes a failure of the transport while chunks were arriving. The
    /// observer is released, what has arrived is dropped unchecked, and the
    /// fetch ends with [`Error::DownloadFailed`].
    pub fn on_failure(self) -> (aborted: Aborted)
        ensures
            aborted@ == self@.failed(),
    {
        Aborted { release_observer: self.observed, error: Error::DownloadFailed }
    }
}

impl Assembled {
    /// The status is one that calls for the body.
    #[verifier::type_invariant]
    spec fn wants_body(&self) -> bool {
        body_wanted(self.status)
    }

    /// The status of the response: a success or a client error.
    pub fn status(&self) -> (status: u16)
        ensures
            status == self@.status,
            body_wanted(status),
    {
        proof {
            use_type_invariant(self);
        }
        self.status
    }

    /// Whether an observer is to be released.
    pub fn release_observer(&self) -> (release: bool)
        ensures
            release == self@.release_observer,
    {
        self.release_observer
    }

    /// Judges the body: it is classified by the status and, where it is the
    /// blob, checked against the digest, as a body read in one piece is.
    pub fn finish(self) -> (result: Result<Vec<u8>, Error>)
        ensures
            outcome_view(result) == self@.finished(),
    {
        conclude(&self.digest, self.status, self.body)
    }
}

/// The chunks put together, in the order in which they arrived.
pub open spec fn joined(chunks: Seq<Seq<u8>>) -> Seq<u8>
    decreases chunks.len(),
{
    if chunks.len() == 0 {
        Seq::empty()
    } else {
        joined(chunks.drop_last()) + chunks.last()
    }
}

/// The fetch after the chunks have arrived one by one.
pub open spec fn after_chunks(state: ReceivingView, chunks: Seq<Seq<u8>>) -> ReceivingView
    decreases chunks.len(),
{
    if chunks.len() == 0 {
        state
    } else {
        after_chunks(state, chunks.drop_last()).after_chunk(chunks.last())
    }
}

/// What the observer has been told once the chunks have arrived one by one.
pub open spec fn notified(observed: bool, chunks: Seq<Seq<u8>>) -> Seq<Signal>
    decreases chunks.len(),
{
    if chunks.len() == 0 {
        Seq::empty()
    } else {
        let before = notified(observed, chunks.drop_last());
        match notification(observed, chunks.last()) {
            Some(n) => before.push(Signal::Notify(n)),
            None => before,
        }
    }
}

/// What the observer is told at the end.
pub open spec fn released(release_observer: bool) -> Seq<Signal> {
    if release_observer {
        seq![Signal::Release]
    } else {
        Seq::empty()
    }
}

/// A whole streamed fetch: all that the observer was told, in order, and the
/// result.
pub struct StreamRun {
    pub signals: Seq<Signal>,
    pub result: Result<Seq<u8>, ErrorView>,
}

/// The streamed fetch in which the transport reports `response`, then
/// delivers `chunks`, and then either ends the stream (`complete`) or fails.
pub open spec fn streamed(
    start: StreamFetchView,
    response: Result<u16, Seq<char>>,
    chunks: Seq<Seq<u8>>,
    complete: bool,
) -> StreamRun {
    match start.after_response(response) {
        Err(aborted) => StreamRun {
            signals: released(aborted.release_observer),
            result: Err(aborted.error),
        },
        Ok(receiving) => {
            let last = after_chunks(receiving, chunks);
            let told = notified(receiving.observed, chunks);
            if complete {
                StreamRun {
                    signals: told + released(last.ended().release_observer),
                    result: last.ended().finished(),
                }
            } else {
                StreamRun {
                    signals: told + released(last.failed().release_observer),
                    result: Err(last.failed().error),
                }
            }
        },
    }
}

/// Receiving chunks one by one gathers them in order behind what was there,
/// and changes nothing else.
pub proof fn lemma_chunks_join_in_order(state: ReceivingView, chunks: Seq<Seq<u8>>)
    ensures
        after_chunks(state, chunks) == (ReceivingView {
            body: state.body + joined(chunks),
            ..state
        }),
    decreases chunks.len(),
{
    if chunks.len() > 0 {
        lemma_chunks_join_in_order(state, chunks.drop_last());
        assert((state.body + joined(chunks.drop_last())) + chunks.last() =~= state.body + joined(
            chunks,
        ));
    }
}

/// The number of bytes that the observer has been told of.
pub open spec fn bytes_told(signals: Seq<Signal>) -> nat
    decreases signals.len(),
{
    if signals.len() == 0 {
        0
    } else {
        bytes_told(signals.drop_last()) + match signals.last() {
            Signal::Notify(n) => n,
            Signal::Release => 0,
        }
    }
}

/// What an observer is told of adds up to the length of the body.
pub proof fn lemma_progress_adds_up(chunks: Seq<Seq<u8>>)
    ensures
        bytes_told(notified(true, chunks)) == joined(chunks).len(),
    decreases chunks.len(),
{
    if chunks.len() > 0 {
        lemma_progress_adds_up(chunks.drop_last());
        assert(notified(true, chunks).drop_last() =~= notified(true, chunks.drop_last()));
    }
}

/// An observer is told once of each chunk, in order, the number of its bytes.
/// Without an observer nothing is told.
pub proof fn lemma_one_notification_per_chunk(observed: bool, chunks: Seq<Seq<u8>>)
    ensures
        observed ==> notified(observed, chunks) == Seq::new(
            chunks.len(),
            |i: int| Signal::Notify(chunks[i].len()),
        ),
        !observed ==> notified(observed, chunks) == Seq::<Signal>::empty(),
    decreases chunks.len(),
{
    if chunks.len() > 0 {
        lemma_one_notification_per_chunk(observed, chunks.drop_last());
        if observed {
            assert(notified(observed, chunks) =~= Seq::new(
                chunks.len(),
                |i: int| Signal::Notify(chunks[i].len()),
            ));
        }
    } else if observed {
        assert(notified(observed, chunks) =~= Seq::new(
            chunks.len(),
            |i: int| Signal::Notify(chunks[i].len()),
        ));
    }
}

/// However a streamed fetch goes, an observer is released exactly once, after
/// all that it is told of chunks; and it is told of chunks only where the
/// response called for the body. Without an observer nothing is told.
pub proof fn lemma_observer_released_once(
    start: StreamFetchView,
    response: Result<u16, Seq<char>>,
    chunks: Seq<Seq<u8>>,
    complete: bool,
)
    ensures
        ({
            let run = streamed(start, response, chunks, complete);
            let told = if screened(response) is Ok {
                chunks.len()
            } else {
                0
            };
            if start.observed {
                &&& run.signals.len() == told + 1
                &&& run.signals.last() == Signal::Release
                &&& forall|i: int|
                    0 <= i < told ==> #[trigger] run.signals[i] == Signal::Notify(
                        chunks[i].len(),
                    )
            } else {
                run.signals.len() == 0
            }
        }),
{
    lemma_one_notification_per_chunk(start.observed, chunks);
    if let Ok(receiving) = start.after_response(response) {
        lemma_chunks_join_in_order(receiving, chunks);
    }
}

/// A streamed fetch that reaches the end of its stream has the result of the
/// fetch that reads the same bytes in one piece.
pub proof fn lemma_streamed_as_fetched(
    start: StreamFetchView,
    response: Result<u16, Seq<char>>,
    chunks: Seq<Seq<u8>>,
)
    ensures
        streamed(start, response, chunks, true).result == fetched(
            start.digest,
            response,
            Ok(joined(chunks)),
        ),
{
    if let Ok(receiving) = start.after_response(response) {
        lemma_chunks_join_in_order(receiving, chunks);
    }
}

/// A streamed fetch whose stream breaks ends with
/// [`ErrorView::DownloadFailed`], whatever had arrived: nothing is checked.
pub proof fn lemma_broken_stream_fails(
    start: StreamFetchView,
    response: Result<u16, Seq<char>>,
    chunks: Seq<Seq<u8>>,
)
    requires
        screened(response) is Ok,
    ensures
        streamed(start, response, chunks, false).result == Err::<Seq<u8>, ErrorView>(
            ErrorView::DownloadFailed,
        ),
{
}

/// Fetches of one digest to which the transport gives the same status and the
/// same bytes have the same result, in whatever chunks the bytes arrive, for
/// whoever watches, and wherever the blob was asked for. A blob that comes out
/// is the bytes that were delivered, and matches the digest.
pub proof fn lemma_same_bytes_same_result(
    first: StreamFetchView,
    second: StreamFetchView,
    response: Result<u16, Seq<char>>,
    chunks1: Seq<Seq<u8>>,
    chunks2: Seq<Seq<u8>>,
)
    requires
        first.digest == second.digest,
        joined(chunks1) == joined(chunks2),
    ensures
        streamed(first, response, chunks1, true).result == streamed(
            second,
            response,
            chunks2,
            true,
        ).result,
        streamed(first, response, chunks1, true).result matches Ok(blob) ==> blob == joined(
            chunks1,
        ) && first.digest.matches(blob),
{
    lemma_streamed_as_fetched(first, response, chunks1);
    lemma_streamed_as_fetched(second, response, chunks2);
}

} // verus!
