//! One connection of the bridge: frames come in, each request among them is
//! answered once, and the answers leave in the order of the requests.
//!
//! The transport and the host stay outside. A connection is handed each
//! frame as it was read and says what to do next; while the host works on a
//! request the connection reads no further frame.

use crate::dispatch::{
    complete, completion, dispatch_command, dispatch_registry, dispatch_step,
    dispatch_step_unlocked, dispatch_without_registry, lemma_completion_keeps_id,
    lemma_dispatch_keeps_id, lemma_dispatch_unlocked_keeps_id, request_id, step_id,
};
use crate::host::{outcome_model, HostCall, Pending, PendingModel, StepModel, Step};
use crate::json;
use crate::json::{json_parse, json_text, Json};
use crate::response::response_id;
use crate::script_registry::ScriptRegistry;
use vstd::prelude::*;

verus! {

/// What the transport read.
#[derive(Clone, Debug, PartialEq, Eq)]
pub enum Frame {
    /// A text frame.
    Text(String),
    /// The peer closed the connection.
    Close,
    /// The transport failed.
    Failed,
    /// Any other frame.
    Other,
}

/// The content of a [`Frame`].
pub enum FrameModel {
    Text(Seq<char>),
    Close,
    Failed,
    Other,
}

impl View for Frame {
    type V = FrameModel;

    open spec fn view(&self) -> FrameModel {
        match self {
            Frame::Text(t) => FrameModel::Text(t@),
            Frame::Close => FrameModel::Close,
            Frame::Failed => FrameModel::Failed,
            Frame::Other => FrameModel::Other,
        }
    }
}

/// What a frame means to the connection.
pub enum Reading {
    /// The frame holds this request.
    Request(Json),
    /// The frame is a text that is no JSON: it is dropped.
    Dropped(Seq<char>),
    /// The frame is no text: it is passed over.
    Nothing,
    /// The connection is over.
    Hangup,
}

/// Reads a frame: a text frame holds a request where its text is JSON and
/// is dropped where it is not; a close frame and a transport failure end the
/// connection; any other frame is passed over.
pub open spec fn reading(frame: FrameModel) -> Reading {
    match frame {
        FrameModel::Text(t) => match json_parse(t) {
            Some(j) => Reading::Request(j),
            None => Reading::Dropped(t),
        },
        FrameModel::Close => Reading::Hangup,
        FrameModel::Failed => Reading::Hangup,
        FrameModel::Other => Reading::Nothing,
    }
}

/// A connection that is ready to read a frame.
///
/// It remembers the ids of the requests it has read and the ids carried by
/// the responses it has handed out. Both histories are the same at this
/// point: every request read so far was answered, in order.
pub struct Connection {
    asked: Ghost<Seq<Seq<char>>>,
    answered: Ghost<Seq<Seq<char>>>,
}

/// A connection that waits for the host to finish the request it read last.
pub struct Waiting {
    asked: Ghost<Seq<Seq<char>>>,
    answered: Ghost<Seq<Seq<char>>>,
    pending: Pending,
}

/// What to do after a frame.
pub enum Turn {
    /// There is nothing to send: read the next frame.
    Read(Connection),
    /// The text of the frame was no JSON and is handed back for the log:
    /// there is nothing to send, read the next frame.
    Dropped(Connection, String),
    /// Send this response, then read the next frame.
    Respond(Connection, String),
    /// Make this call, and hand its outcome to the waiting connection.
    Call(Waiting, HostCall),
    /// Stop reading: the connection is over.
    Closed,
}

impl Connection {
    /// The ids of the requests read so far, in the order of reading.
    pub closed spec fn requests(&self) -> Seq<Seq<char>> {
        self.asked@
    }

    /// The ids carried by the responses handed out so far, in that order.
    pub closed spec fn responses(&self) -> Seq<Seq<char>> {
        self.answered@
    }

    /// The responses so far answer the requests so far, one for one and in
    /// order.
    #[verifier::type_invariant]
    spec fn answered_all(self) -> bool {
        self.answered@ == self.asked@
    }

    /// A connection on which nothing has happened yet.
    pub fn new() -> (r: Connection)
        ensures
            r.requests() == Seq::<Seq<char>>::empty(),
            r.responses() == r.requests(),
    {
        Connection { asked: Ghost(Seq::empty()), answered: Ghost(Seq::empty()) }
    }

    /// Hands out the response that is ready, or the call that has to be
    /// made first, for the request with the id `id`.
    fn proceed(self, step: Step, id: Ghost<Seq<char>>) -> (turn: Turn)
        requires
            step_id(step@) == Some(id@),
        ensures
            self.responses() == self.requests(),
            match step@ {
                StepModel::Reply(response) => {
                    &&& turn matches Turn::Respond(c, text)
                    &&& text@ == json_text(response)
                    &&& response_id(response) == Some(id@)
                    &&& c.requests() == self.requests().push(id@)
                    &&& c.responses() == c.requests()
                },
                StepModel::Ask { call, pending } => {
                    &&& turn matches Turn::Call(w, host_call)
                    &&& host_call@ == call
                    &&& w.pending() == pending
                    &&& w.requests() == self.requests().push(id@)
                    &&& w.responses() == self.responses()
                },
            },
    {
        proof {
            use_type_invariant(&self);
        }
        match step {
            Step::Reply(response) => {
                let text = json::to_text(&response);
                Turn::Respond(
                    Connection {
                        asked: Ghost(self.asked@.push(id@)),
                        answered: Ghost(self.answered@.push(id@)),
                    },
                    text,
                )
            },
            Step::Ask { call, pending } => Turn::Call(
                Waiting { asked: Ghost(self.asked@.push(id@)), answered: self.answered, pending },
                call,
            ),
        }
    }

    /// Takes the frame that was read and says what to do next.
    ///
    /// A frame that holds no request changes nothing and sends nothing; a
    /// text that is no JSON is handed back. A request is dispatched; its
    /// response, once there is one, carries the id of the request. A close
    /// frame and a transport failure end the connection.
    pub fn on_frame(
        self,
        frame: Frame,
        targets: &Vec<String>,
        registry: &mut ScriptRegistry,
    ) -> (turn: Turn)
        ensures
            self.responses() == self.requests(),
            match reading(frame@) {
                Reading::Hangup => turn is Closed && final(registry)@ == old(registry)@,
                Reading::Nothing => {
                    &&& turn matches Turn::Read(c)
                    &&& c.requests() == self.requests()
                    &&& c.responses() == c.requests()
                    &&& final(registry)@ == old(registry)@
                },
                Reading::Dropped(t) => {
                    &&& turn matches Turn::Dropped(c, text)
                    &&& text@ == t
                    &&& c.requests() == self.requests()
                    &&& c.responses() == c.requests()
                    &&& final(registry)@ == old(registry)@
                },
                Reading::Request(j) => {
                    &&& final(registry)@ == dispatch_registry(j, old(registry)@)
                    &&& match dispatch_step(j, targets.deep_view(), old(registry)@) {
                        StepModel::Reply(response) => {
                            &&& turn matches Turn::Respond(c, text)
                            &&& text@ == json_text(response)
                            &&& response_id(response) == Some(request_id(j))
                            &&& c.requests() == self.requests().push(request_id(j))
                            &&& c.responses() == c.requests()
                        },
                        StepModel::Ask { call, pending } => {
                            &&& turn matches Turn::Call(w, host_call)
                            &&& host_call@ == call
                            &&& w.pending() == pending
                            &&& w.requests() == self.requests().push(request_id(j))
                            &&& w.responses() == self.responses()
                        },
                    }
                },
            },
    {
        proof {
            use_type_invariant(&self);
        }
        match frame {
            Frame::Text(text) => match json::parse(text.as_str()) {
                Some(command) => {
                    let ghost j = json::json_model(command);
                    proof {
                        lemma_dispatch_keeps_id(j, targets.deep_view(), registry@);
                    }
                    let step = dispatch_command(&command, targets, registry);
                    self.proceed(step, Ghost(request_id(j)))
                },
                None => Turn::Dropped(self, text),
            },
            Frame::Close => Turn::Closed,
            Frame::Failed => Turn::Closed,
            Frame::Other => Turn::Read(self),
        }
    }

    /// Takes the frame that was read while the script registry cannot be
    /// had, because the lock that guards it failed with `reason`.
    ///
    /// A request that needs the registry is answered with that error, and
    /// the connection goes on; everything else is as in
    /// [`Connection::on_frame`].
    pub fn on_frame_unlocked(self, frame: Frame, targets: &Vec<String>, reason: &str) -> (turn:
        Turn)
        ensures
            self.responses() == self.requests(),
            match reading(frame@) {
                Reading::Hangup => turn is Closed,
                Reading::Nothing => {
                    &&& turn matches Turn::Read(c)
                    &&& c.requests() == self.requests()
                    &&& c.responses() == c.requests()
                },
                Reading::Dropped(t) => {
                    &&& turn matches Turn::Dropped(c, text)
                    &&& text@ == t
                    &&& c.requests() == self.requests()
                    &&& c.responses() == c.requests()
                },
                Reading::Request(j) => match dispatch_step_unlocked(
                    j,
                    targets.deep_view(),
                    reason@,
                ) {
                    StepModel::Reply(response) => {
                        &&& turn matches Turn::Respond(c, text)
                        &&& text@ == json_text(response)
                        &&& response_id(response) == Some(request_id(j))
                        &&& c.requests() == self.requests().push(request_id(j))
                        &&& c.responses() == c.requests()
                    },
                    StepModel::Ask { call, pending } => {
                        &&& turn matches Turn::Call(w, host_call)
                        &&& host_call@ == call
                        &&& w.pending() == pending
                        &&& w.requests() == self.requests().push(request_id(j))
                        &&& w.responses() == self.responses()
                    },
                },
            },
    {
        proof {
            use_type_invariant(&self);
        }
        match frame {
            Frame::Text(text) => match json::parse(text.as_str()) {
                Some(command) => {
                    let ghost j = json::json_model(command);
                    proof {
                        lemma_dispatch_unlocked_keeps_id(j, targets.deep_view(), reason@);
                    }
                    let step = dispatch_without_registry(&command, targets, reason);
                    self.proceed(step, Ghost(request_id(j)))
                },
                None => Turn::Dropped(self, text),
            },
            Frame::Close => Turn::Closed,
            Frame::Failed => Turn::Closed,
            Frame::Other => Turn::Read(self),
        }
    }
}

impl Waiting {
    /// The ids of the requests read so far, in the order of reading.
    pub closed spec fn requests(&self) -> Seq<Seq<char>> {
        self.asked@
    }

    /// The ids carried by the responses handed out so far, in that order.
    pub closed spec fn responses(&self) -> Seq<Seq<char>> {
        self.answered@
    }

    /// What is kept of the request that the host works on.
    pub closed spec fn pending(&self) -> PendingModel {
        self.pending@
    }

    /// All requests but the last were answered in order, and the last is
    /// the one that the host works on.
    #[verifier::type_invariant]
    spec fn answered_all_but_last(self) -> bool {
        self.asked@ == self.answered@.push(self.pending@.request_id())
    }

    /// Takes what the host made of the call and hands out the response,
    /// with the connection ready to read again.
    pub fn on_outcome(self, outcome: Result<serde_json::Value, String>) -> (r: (Connection, String))
        ensures
            self.requests() == self.responses().push(self.pending().request_id()),
            r.1@ == json_text(completion(self.pending(), outcome_model(outcome))),
            response_id(completion(self.pending(), outcome_model(outcome))) == Some(
                self.pending().request_id(),
            ),
            r.0.requests() == self.requests(),
            r.0.responses() == r.0.requests(),
    {
        proof {
            use_type_invariant(&self);
            lemma_completion_keeps_id(self.pending@, outcome_model(outcome));
        }
        let ghost id = self.pending@.request_id();
        let response = complete(self.pending, outcome);
        let text = json::to_text(&response);
        (Connection { asked: self.asked, answered: Ghost(self.answered@.push(id)) }, text)
    }
}

} // verus!
