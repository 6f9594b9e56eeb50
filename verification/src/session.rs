//! One upstream session: the calls that wait for audio, and what each
//! upstream message does to them.
//!
//! A call is registered under its request identifier before its first frame
//! is written. Audio that arrives for it is collected in arrival order; the
//! first piece also fixes the media type. The end of its turn completes the
//! call and removes it. When the session dies every call still waiting is
//! abandoned.

use crate::buffer::{buffer_bytes, buffer_to_vec};
use crate::frames::{classify, content_type, frame_of, media_type, FrameView, UpstreamFrame, UpstreamMessage};
use crate::utils::bytes_eq;
use bytes::BytesMut;
use vstd::prelude::*;
use vstd::utf8::encode_utf8;

verus! {

/// The audio of one completed call.
#[derive(Debug)]
pub struct MsTtsMsgResponse {
    pub request_id: String,
    pub data: Vec<u8>,
    pub file_type: String,
}

/// The mathematical value of an `MsTtsMsgResponse`; the identifier is taken
/// as the bytes that stand on the wire.
pub struct ResponseView {
    pub request_id: Seq<u8>,
    pub audio: Seq<u8>,
    pub media_type: Seq<char>,
}

impl View for MsTtsMsgResponse {
    type V = ResponseView;

    open spec fn view(&self) -> ResponseView {
        ResponseView {
            request_id: encode_utf8(self.request_id@),
            audio: self.data@,
            media_type: self.file_type@,
        }
    }
}

/// What a session holds for one call in flight.
#[derive(Debug)]
pub struct MsTtsCache {
    pub request_id: String,
    pub data: BytesMut,
    pub file_type: Option<String>,
}

/// The mathematical value of an `MsTtsCache`.
pub struct CallView {
    pub request_id: Seq<u8>,
    pub audio: Seq<u8>,
    pub media_type: Option<Seq<char>>,
}

impl View for MsTtsCache {
    type V = CallView;

    open spec fn view(&self) -> CallView {
        CallView {
            request_id: encode_utf8(self.request_id@),
            audio: buffer_bytes(self.data),
            media_type: match self.file_type {
                Some(s) => Some(s@),
                None => None,
            },
        }
    }
}

/// What the session asks of its owner after a message.
#[derive(Debug)]
pub enum SessionAction {
    /// Nothing to do.
    Nothing,
    /// A call is complete: hand its audio to the caller that waits for it.
    Deliver(MsTtsMsgResponse),
    /// A turn ended before any audio came: the call has failed.
    Fail { request_id: String },
    /// The session is dead: close it; these calls were still waiting.
    Teardown { abandoned: Vec<String> },
}

/// The mathematical value of a `SessionAction`.
pub enum ActionView {
    Nothing,
    Deliver(ResponseView),
    Fail { request_id: Seq<u8> },
    Teardown { abandoned: Seq<Seq<u8>> },
}

/// The identifiers of a list of strings, as they stand on the wire.
pub open spec fn wire_ids(ids: Seq<String>) -> Seq<Seq<u8>> {
    Seq::new(ids.len(), |i: int| encode_utf8(ids[i]@))
}

impl View for SessionAction {
    type V = ActionView;

    open spec fn view(&self) -> ActionView {
        match self {
            SessionAction::Nothing => ActionView::Nothing,
            SessionAction::Deliver(response) => ActionView::Deliver(response@),
            SessionAction::Fail { request_id } => ActionView::Fail {
                request_id: encode_utf8(request_id@),
            },
            SessionAction::Teardown { abandoned } => ActionView::Teardown {
                abandoned: wire_ids(abandoned@),
            },
        }
    }
}

/// A call with this identifier is waiting.
pub open spec fn holds(calls: Seq<CallView>, id: Seq<u8>) -> bool {
    exists|i: int| 0 <= i < calls.len() && calls[i].request_id == id
}

/// The place of the call with this identifier.
pub open spec fn slot_of(calls: Seq<CallView>, id: Seq<u8>) -> int {
    choose|i: int| 0 <= i < calls.len() && calls[i].request_id == id
}

/// No identifier stands twice.
pub open spec fn distinct_ids(calls: Seq<CallView>) -> bool {
    forall|i: int, j: int| 0 <= i < j < calls.len() ==> calls[i].request_id != calls[j].request_id
}

/// The identifiers of the waiting calls, oldest first.
pub open spec fn ids_of(calls: Seq<CallView>) -> Seq<Seq<u8>> {
    Seq::new(calls.len(), |i: int| calls[i].request_id)
}

/// The calls without the one that has this identifier.
pub open spec fn without(calls: Seq<CallView>, id: Seq<u8>) -> Seq<CallView> {
    if holds(calls, id) {
        calls.remove(slot_of(calls, id))
    } else {
        calls
    }
}

/// The calls after a fresh call was registered under `id`; an older call of
/// the same identifier is replaced.
pub open spec fn registered(calls: Seq<CallView>, id: Seq<u8>) -> Seq<CallView> {
    without(calls, id).push(CallView { request_id: id, audio: Seq::empty(), media_type: None })
}

/// What one message does to the waiting calls, and what it asks of the owner.
///
/// Audio for a waiting call is added behind what the call has; the first
/// piece fixes the media type from its header block, later pieces leave it.
/// Audio for an unknown identifier is dropped. A first piece without a
/// readable `Content-Type`, a buffer that would outgrow `isize::MAX`, a
/// malformed message and a close all kill the session.
pub open spec fn session_step(calls: Seq<CallView>, frame: FrameView) -> (Seq<CallView>, ActionView) {
    match frame {
        FrameView::TurnEnd { request_id } => if holds(calls, request_id) {
            let i = slot_of(calls, request_id);
            (
                calls.remove(i),
                match calls[i].media_type {
                    Some(media_type) => ActionView::Deliver(
                        ResponseView { request_id, audio: calls[i].audio, media_type },
                    ),
                    None => ActionView::Fail { request_id },
                },
            )
        } else {
            (calls, ActionView::Nothing)
        },
        FrameView::Audio { request_id, header, payload } => if holds(calls, request_id) {
            let i = slot_of(calls, request_id);
            let media_type = if calls[i].media_type is Some {
                calls[i].media_type
            } else {
                content_type(header)
            };
            if media_type is None || calls[i].audio.len() + payload.len() > isize::MAX {
                (Seq::empty(), ActionView::Teardown { abandoned: ids_of(calls) })
            } else {
                (
                    calls.update(
                        i,
                        CallView { request_id, audio: calls[i].audio + payload, media_type },
                    ),
                    ActionView::Nothing,
                )
            }
        } else {
            (calls, ActionView::Nothing)
        },
        FrameView::Closed => (Seq::empty(), ActionView::Teardown { abandoned: ids_of(calls) }),
        FrameView::Malformed => (Seq::empty(), ActionView::Teardown { abandoned: ids_of(calls) }),
        _ => (calls, ActionView::Nothing),
    }
}

/// The values of a list of calls.
pub open spec fn call_views(calls: Seq<MsTtsCache>) -> Seq<CallView> {
    calls.map_values(|c: MsTtsCache| c@)
}

fn find_call(calls: &Vec<MsTtsCache>, id: &[u8]) -> (r: Option<usize>)
    requires
        distinct_ids(call_views(calls@)),
    ensures
        r is Some == holds(call_views(calls@), id@),
        r matches Some(i) ==> i < calls@.len() && slot_of(call_views(calls@), id@) == i
            && call_views(calls@)[i as int].request_id == id@,
{
    let ghost views = call_views(calls@);
    let mut i: usize = 0;
    while i < calls.len()
        invariant
            views == call_views(calls@),
            distinct_ids(views),
            i <= calls@.len(),
            forall|k: int| 0 <= k < i ==> views[k].request_id != id@,
        decreases calls@.len() - i,
    {
        if bytes_eq(calls[i].request_id.as_str().as_bytes(), id) {
            assert(views[i as int].request_id == id@);
            proof {
                lemma_slot(views, id@, i as int);
            }
            return Some(i);
        }
        i += 1;
    }
    None
}

/// The calls in flight on one upstream session. No identifier is
/// registered twice.
#[derive(Debug)]
pub struct BackendSession {
    calls: Vec<MsTtsCache>,
}

impl View for BackendSession {
    type V = Seq<CallView>;

    closed spec fn view(&self) -> Seq<CallView> {
        call_views(self.calls@)
    }
}

impl BackendSession {
    #[verifier::type_invariant]
    spec fn no_identifier_twice(self) -> bool {
        distinct_ids(call_views(self.calls@))
    }

    /// No identifier is registered twice. This holds of every session.
    pub open spec fn wf(&self) -> bool {
        distinct_ids(self@)
    }

    /// A session on which no call waits.
    pub fn new() -> (s: Self)
        ensures
            s@ == Seq::<CallView>::empty(),
            s.wf(),
    {
        let calls: Vec<MsTtsCache> = Vec::new();
        assert(call_views(calls@) =~= Seq::<CallView>::empty());
        BackendSession { calls }
    }

    /// The number of calls in flight.
    pub fn len(&self) -> (n: usize)
        ensures
            n == self@.len(),
            self.wf(),
    {
        proof {
            use_type_invariant(self);
        }
        self.calls.len()
    }

    /// Whether a call waits under this identifier.
    pub fn is_registered(&self, request_id: &str) -> (r: bool)
        ensures
            r == holds(self@, encode_utf8(request_id@)),
            self.wf(),
    {
        proof {
            use_type_invariant(self);
        }
        find_call(&self.calls, request_id.as_bytes()).is_some()
    }

    fn take(&mut self) -> (calls: Vec<MsTtsCache>)
        ensures
            call_views(calls@) == old(self)@,
            distinct_ids(call_views(calls@)),
            final(self)@ == Seq::<CallView>::empty(),
    {
        proof {
            use_type_invariant(&*self);
        }
        let mut calls: Vec<MsTtsCache> = Vec::new();
        assert(call_views(calls@) =~= Seq::<CallView>::empty());
        std::mem::swap(&mut self.calls, &mut calls);
        calls
    }

    fn put(&mut self, calls: Vec<MsTtsCache>)
        requires
            distinct_ids(call_views(calls@)),
        ensures
            final(self)@ == call_views(calls@),
            final(self).wf(),
    {
        self.calls = calls;
    }

    /// Registers a fresh call; it is done before the first frame of the
    /// request is written. An older call of the same identifier is replaced.
    pub fn register(&mut self, request_id: String)
        ensures
            final(self).wf(),
            final(self)@ == registered(old(self)@, encode_utf8(request_id@)),
            holds(final(self)@, encode_utf8(request_id@)),
    {
        let mut calls = self.take();
        let ghost id = encode_utf8(request_id@);
        if let Some(i) = find_call(&calls, request_id.as_str().as_bytes()) {
            calls.remove(i);
        }
        let ghost rest = call_views(calls@);
        assert(rest =~= without(old(self)@, id));
        assert(!holds(rest, id));
        assert(distinct_ids(rest));
        let call = MsTtsCache { request_id, data: BytesMut::new(), file_type: None };
        calls.push(call);
        assert(call_views(calls@) =~= rest.push(call@));
        assert(call_views(calls@)[calls@.len() - 1].request_id == id);
        self.put(calls);
    }

    /// Gives up a call, as when its caller has waited long enough. Audio
    /// that arrives for it later is dropped.
    pub fn abandon(&mut self, request_id: &str) -> (r: bool)
        ensures
            final(self).wf(),
            r == holds(old(self)@, encode_utf8(request_id@)),
            final(self)@ == without(old(self)@, encode_utf8(request_id@)),
            !holds(final(self)@, encode_utf8(request_id@)),
    {
        let mut calls = self.take();
        let found = find_call(&calls, request_id.as_bytes());
        if let Some(i) = found {
            calls.remove(i);
            assert(call_views(calls@) =~= old(self)@.remove(i as int));
        }
        self.put(calls);
        found.is_some()
    }

    /// Takes one classified message and says what is to be done.
    pub fn on_frame(&mut self, frame: UpstreamFrame) -> (r: SessionAction)
        ensures
            final(self).wf(),
            (final(self)@, r@) == session_step(old(self)@, frame@),
    {
        let mut calls = self.take();
        let (calls, action) = step_calls(calls, frame);
        self.put(calls);
        action
    }

    /// Takes one upstream message and says what is to be done.
    pub fn on_message(&mut self, message: &UpstreamMessage) -> (r: SessionAction)
        ensures
            final(self).wf(),
            (final(self)@, r@) == session_step(old(self)@, frame_of(*message)),
    {
        self.on_frame(classify(message))
    }
}

fn abandon_all(calls: Vec<MsTtsCache>) -> (r: (Vec<MsTtsCache>, SessionAction))
    ensures
        call_views(r.0@) == Seq::<CallView>::empty(),
        r.1@ == (ActionView::Teardown { abandoned: ids_of(call_views(calls@)) }),
{
    let mut abandoned: Vec<String> = Vec::new();
    let mut i: usize = 0;
    while i < calls.len()
        invariant
            i <= calls@.len(),
            abandoned@.len() == i,
            forall|k: int| 0 <= k < i ==> abandoned@[k]@ == calls@[k].request_id@,
        decreases calls@.len() - i,
    {
        abandoned.push(calls[i].request_id.clone());
        i += 1;
    }
    assert(wire_ids(abandoned@) =~= ids_of(call_views(calls@)));
    let none: Vec<MsTtsCache> = Vec::new();
    assert(call_views(none@) =~= Seq::<CallView>::empty());
    (none, SessionAction::Teardown { abandoned })
}

fn step_calls(calls: Vec<MsTtsCache>, frame: UpstreamFrame) -> (r: (Vec<MsTtsCache>, SessionAction))
    requires
        distinct_ids(call_views(calls@)),
    ensures
        distinct_ids(call_views(r.0@)),
        (call_views(r.0@), r.1@) == session_step(call_views(calls@), frame@),
{
    let mut calls = calls;
    let ghost before = call_views(calls@);
    match frame {
        UpstreamFrame::TurnEnd { request_id } => match find_call(&calls, request_id.as_slice()) {
            Some(i) => {
                let call = calls.remove(i);
                assert(call_views(calls@) =~= before.remove(i as int));
                assert(call@ == before[i as int]);
                let data = buffer_to_vec(&call.data);
                let action = match call.file_type {
                    Some(file_type) => SessionAction::Deliver(
                        MsTtsMsgResponse { request_id: call.request_id, data, file_type },
                    ),
                    None => SessionAction::Fail { request_id: call.request_id },
                };
                (calls, action)
            },
            None => (calls, SessionAction::Nothing),
        },
        UpstreamFrame::Audio { request_id, header, payload } => match find_call(
            &calls,
            request_id.as_slice(),
        ) {
            Some(i) => {
                let known = calls[i].file_type.is_some();
                let discovered = if known {
                    None
                } else {
                    media_type(header.as_slice())
                };
                let held: usize = calls[i].data.len();
                let limit: usize = isize::MAX as usize;
                let too_long = held > limit || payload.len() > limit - held;
                if (!known && discovered.is_none()) || too_long {
                    return abandon_all(calls);
                }
                let mut call = calls.remove(i);
                assert(call@ == before[i as int]);
                if !known {
                    call.file_type = discovered;
                }
                call.data.extend_from_slice(payload.as_slice());
                calls.insert(i, call);
                assert(call_views(calls@) =~= before.update(i as int, call@));
                (calls, SessionAction::Nothing)
            },
            None => (calls, SessionAction::Nothing),
        },
        UpstreamFrame::Closed => abandon_all(calls),
        UpstreamFrame::Malformed => abandon_all(calls),
        _ => (calls, SessionAction::Nothing),
    }
}

/// The calls after a run of messages, taken one after the other.
pub open spec fn replay(calls: Seq<CallView>, frames: Seq<FrameView>) -> Seq<CallView>
    decreases frames.len(),
{
    if frames.len() == 0 {
        calls
    } else {
        session_step(replay(calls, frames.drop_last()), frames.last()).0
    }
}

/// The audio that a run of messages carries for one identifier, in the
/// order of arrival.
pub open spec fn audio_of(frames: Seq<FrameView>, id: Seq<u8>) -> Seq<u8>
    decreases frames.len(),
{
    if frames.len() == 0 {
        Seq::empty()
    } else {
        let before = audio_of(frames.drop_last(), id);
        match frames.last() {
            FrameView::Audio { request_id, header, payload } => if request_id == id {
                before + payload
            } else {
                before
            },
            _ => before,
        }
    }
}

/// Where identifiers are distinct, the call found at a place is the call of
/// its identifier.
pub proof fn lemma_slot(calls: Seq<CallView>, id: Seq<u8>, i: int)
    requires
        distinct_ids(calls),
        0 <= i < calls.len(),
        calls[i].request_id == id,
    ensures
        holds(calls, id),
        slot_of(calls, id) == i,
{
    let j = slot_of(calls, id);
    assert(0 <= j < calls.len() && calls[j].request_id == id);
    if j < i {
        assert(calls[j].request_id != calls[i].request_id);
    }
    if i < j {
        assert(calls[i].request_id != calls[j].request_id);
    }
}

/// One message never registers a call, never gives an identifier twice, and
/// to a call that is still waiting afterwards it has done no more than add
/// its own audio behind what the call had, and fix a media type that was
/// not yet known.
pub proof fn lemma_step_effect(calls: Seq<CallView>, frame: FrameView, id: Seq<u8>)
    requires
        distinct_ids(calls),
    ensures
        distinct_ids(session_step(calls, frame).0),
        session_step(calls, frame).0.len() <= calls.len(),
        holds(session_step(calls, frame).0, id) ==> {
            let after = session_step(calls, frame).0;
            let was = calls[slot_of(calls, id)];
            let is = after[slot_of(after, id)];
            &&& holds(calls, id)
            &&& is.audio == was.audio + audio_of(seq![frame], id)
            &&& was.media_type is Some ==> is.media_type == was.media_type
        },
{
    let after = session_step(calls, frame).0;
    assert(seq![frame].drop_last() =~= Seq::<FrameView>::empty());
    assert(audio_of(seq![frame].drop_last(), id) =~= Seq::<u8>::empty());
    match frame {
        FrameView::TurnEnd { request_id } => {
            if holds(calls, request_id) {
                let i = slot_of(calls, request_id);
                assert(0 <= i < calls.len() && calls[i].request_id == request_id);
                assert(after == calls.remove(i));
                assert forall|a: int, b: int| 0 <= a < b < after.len() implies after[a].request_id
                    != after[b].request_id by {
                    let a0 = if a < i { a } else { a + 1 };
                    let b0 = if b < i { b } else { b + 1 };
                    assert(after[a] == calls[a0]);
                    assert(after[b] == calls[b0]);
                }
                if holds(after, id) {
                    let k = slot_of(after, id);
                    assert(0 <= k < after.len() && after[k].request_id == id);
                    let k0 = if k < i { k } else { k + 1 };
                    assert(after[k] == calls[k0]);
                    lemma_slot(calls, id, k0);
                    assert(calls[k0].audio + Seq::<u8>::empty() =~= calls[k0].audio);
                }
            } else {
                if holds(after, id) {
                    let k = slot_of(calls, id);
                    assert(calls[k].audio + Seq::<u8>::empty() =~= calls[k].audio);
                }
            }
        },
        FrameView::Audio { request_id, header, payload } => {
            if holds(calls, request_id) {
                let i = slot_of(calls, request_id);
                assert(0 <= i < calls.len() && calls[i].request_id == request_id);
                if after.len() > 0 {
                    assert(after.len() == calls.len());
                    assert forall|a: int| 0 <= a < after.len() implies #[trigger] after[a].request_id
                        == calls[a].request_id by {}
                    if holds(after, id) {
                        let k = slot_of(after, id);
                        assert(0 <= k < after.len() && after[k].request_id == id);
                        lemma_slot(calls, id, k);
                        if k != i {
                            assert(after[k] == calls[k]);
                            assert(id != request_id);
                            assert(calls[k].audio + Seq::<u8>::empty() =~= calls[k].audio);
                        } else {
                            assert(id == request_id);
                            assert(Seq::<u8>::empty() + payload =~= payload);
                        }
                    }
                } else {
                    if holds(after, id) {
                        let k = slot_of(after, id);
                        assert(0 <= k < after.len());
                    }
                }
            } else {
                if holds(after, id) {
                    let k = slot_of(calls, id);
                    assert(0 <= k < calls.len() && calls[k].request_id == id);
                    assert(id != request_id);
                    assert(calls[k].audio + Seq::<u8>::empty() =~= calls[k].audio);
                }
            }
        },
        FrameView::Closed => {
            if holds(after, id) {
                let k = slot_of(after, id);
                assert(0 <= k < after.len());
            }
        },
        FrameView::Malformed => {
            if holds(after, id) {
                let k = slot_of(after, id);
                assert(0 <= k < after.len());
            }
        },
        _ => {
            if holds(after, id) {
                let k = slot_of(calls, id);
                assert(calls[k].audio + Seq::<u8>::empty() =~= calls[k].audio);
            }
        },
    }
}

/// The audio of a call is what arrived for its identifier, in the order of
/// arrival, whatever was interleaved for other calls: a call that is still
/// waiting after a run of messages has what it had before, then the audio of
/// the run's messages for it, and its media type, once known, has not
/// changed.
pub proof fn lemma_audio_in_arrival_order(calls: Seq<CallView>, frames: Seq<FrameView>, id: Seq<u8>)
    requires
        distinct_ids(calls),
        holds(replay(calls, frames), id),
    ensures
        distinct_ids(replay(calls, frames)),
        holds(calls, id),
        replay(calls, frames)[slot_of(replay(calls, frames), id)].audio == calls[slot_of(
            calls,
            id,
        )].audio + audio_of(frames, id),
        calls[slot_of(calls, id)].media_type is Some ==> replay(calls, frames)[slot_of(
            replay(calls, frames),
            id,
        )].media_type == calls[slot_of(calls, id)].media_type,
    decreases frames.len(),
{
    if frames.len() == 0 {
        let k = slot_of(calls, id);
        assert(calls[k].audio + Seq::<u8>::empty() =~= calls[k].audio);
    } else {
        let mid = replay(calls, frames.drop_last());
        lemma_replay_keeps_distinct(calls, frames.drop_last());
        lemma_step_effect(mid, frames.last(), id);
        lemma_audio_in_arrival_order(calls, frames.drop_last(), id);
        let after = replay(calls, frames);
        let was = calls[slot_of(calls, id)];
        let then = mid[slot_of(mid, id)];
        let is = after[slot_of(after, id)];
        let earlier = audio_of(frames.drop_last(), id);
        let last = audio_of(seq![frames.last()], id);
        assert(seq![frames.last()].drop_last() =~= Seq::<FrameView>::empty());
        assert(seq![frames.last()].last() == frames.last());
        assert(audio_of(frames, id) =~= earlier + last) by {
            assert(audio_of(Seq::<FrameView>::empty(), id) =~= Seq::<u8>::empty());
            assert(earlier + Seq::<u8>::empty() =~= earlier);
            assert(Seq::<u8>::empty() + last =~= last);
        }
        assert(is.audio =~= was.audio + audio_of(frames, id));
    }
}

/// A run of messages never gives an identifier twice.
pub proof fn lemma_replay_keeps_distinct(calls: Seq<CallView>, frames: Seq<FrameView>)
    requires
        distinct_ids(calls),
    ensures
        distinct_ids(replay(calls, frames)),
        replay(calls, frames).len() <= calls.len(),
    decreases frames.len(),
{
    if frames.len() > 0 {
        lemma_replay_keeps_distinct(calls, frames.drop_last());
        lemma_step_effect(replay(calls, frames.drop_last()), frames.last(), Seq::<u8>::empty());
    }
}

/// The end of its turn takes a call out of the session: afterwards no call
/// waits under the identifier, and one call fewer is in flight if one did.
pub proof fn lemma_turn_end_releases(calls: Seq<CallView>, id: Seq<u8>)
    requires
        distinct_ids(calls),
    ensures
        !holds(session_step(calls, FrameView::TurnEnd { request_id: id }).0, id),
        session_step(calls, FrameView::TurnEnd { request_id: id }).0.len() == if holds(calls, id) {
            calls.len() - 1
        } else {
            calls.len() as int
        },
        holds(calls, id) ==> !(session_step(calls, FrameView::TurnEnd { request_id: id }).1
            is Nothing),
{
    let after = session_step(calls, FrameView::TurnEnd { request_id: id }).0;
    if holds(calls, id) {
        let i = slot_of(calls, id);
        assert(0 <= i < calls.len() && calls[i].request_id == id);
        if holds(after, id) {
            let k = slot_of(after, id);
            assert(0 <= k < after.len() && after[k].request_id == id);
            let k0 = if k < i { k } else { k + 1 };
            assert(after[k] == calls[k0]);
            lemma_slot(calls, id, k0);
        }
    }
}

/// Registering a call under a fresh identifier puts one more call in flight
/// and leaves the others as they were.
pub proof fn lemma_register_adds_one(calls: Seq<CallView>, id: Seq<u8>)
    requires
        distinct_ids(calls),
        !holds(calls, id),
    ensures
        registered(calls, id).len() == calls.len() + 1,
        registered(calls, id).drop_last() == calls,
        distinct_ids(registered(calls, id)),
        holds(registered(calls, id), id),
{
    let after = registered(calls, id);
    assert(after.drop_last() =~= calls);
    assert(after[after.len() - 1].request_id == id);
    assert forall|a: int, b: int| 0 <= a < b < after.len() implies after[a].request_id
        != after[b].request_id by {
        if b == after.len() - 1 {
            assert(after[a] == calls[a]);
        }
    }
}

} // verus!
