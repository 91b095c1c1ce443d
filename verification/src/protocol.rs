//! The protocol state machine of one node.
//!
//! Each handler is a pure transition: it takes the node's state and one
//! inbound event (a local API call or a remote peer request) and returns the
//! next state together with the effects — replies, fire-and-forget sends and
//! UI pushes — that the transport layer around the node must perform. The
//! transport performs I/O only; every decision is made, and verified, here.

use vstd::prelude::*;
use vstd::pervasive::unreached;
use crate::canvas::{names_of, Canvas, CanvasModel};
use crate::codec;
use crate::point::Point;
use crate::store::Store;

verus! {

/// A request arriving from the local gateway (the HTTP API).
pub enum ApiCall {
    AddUser(String),
    RemoveUser(String),
    Draw(String, Point),
    GetCanvasList,
    GetCanvas(String),
}

/// A peer-to-peer protocol request.
pub enum RemoteRequest {
    AddUser(String),
    RemoveUser(String),
    Draw(String, Point),
}

/// A peer-to-peer protocol response; meaningful as the answer to `AddUser`.
#[derive(Clone, Copy, PartialEq, Eq, Structural, Debug)]
pub enum RemoteResponse {
    InviteAccepted,
    InviteRejected,
}

/// Why a local `AddUser` call failed.
#[derive(Clone, Copy, PartialEq, Eq, Structural, Debug)]
pub enum ApiError {
    /// The peer answered, but declined or answered with an unexpected shape.
    InviteError,
    /// The request was not delivered, or the bounded wait timed out.
    DeliveryError,
}

/// One fire-and-forget message for the transport to deliver.
pub struct OutboundMessage {
    pub to: String,
    pub request: RemoteRequest,
}

/// One notification for the local UI push sink.
pub struct PushUpdate {
    pub canvas_id: String,
    pub point: Point,
}

/// What a remote-request handler asks the surrounding node to do.
pub struct RemoteEffect {
    pub reply: Option<RemoteResponse>,
    pub push: Option<PushUpdate>,
    pub sends: Vec<OutboundMessage>,
}

/// What a local API call asks the surrounding node to do.
pub enum ApiEffect {
    /// The local mutation is done; deliver these messages, best effort.
    Done { sends: Vec<OutboundMessage> },
    /// An invite was recorded locally. Send `AddUser` to `target` with
    /// `snapshot` attached, await the answer with a bounded timeout, and
    /// hand the outcome to [`finish_add_user`].
    AwaitInvite { target: String, snapshot: Canvas },
    /// The answer to `GetCanvasList`.
    CanvasList { ids: Vec<String> },
    /// The answer to `GetCanvas`.
    CanvasState { canvas: Option<Canvas> },
}

/// The outcome of the blocking invite delivery, as the transport saw it.
pub enum InviteReply {
    /// The peer answered with these bytes.
    Delivered(Vec<u8>),
    /// Delivery failed, or the bounded wait timed out.
    Failed,
}

/// The store after `u` joins the membership of the canvas under `id`.
pub open spec fn member_added(
    m: Map<Seq<char>, CanvasModel>,
    id: Seq<char>,
    u: Seq<char>,
) -> Map<Seq<char>, CanvasModel> {
    m.insert(id, m[id].with_user(u))
}

/// The store after `u` leaves the membership of the canvas under `id`.
pub open spec fn member_removed(
    m: Map<Seq<char>, CanvasModel>,
    id: Seq<char>,
    u: Seq<char>,
) -> Map<Seq<char>, CanvasModel> {
    m.insert(id, m[id].without_user(u))
}

/// The store after `p` is appended to the point log of the canvas under `id`.
pub open spec fn point_appended(
    m: Map<Seq<char>, CanvasModel>,
    id: Seq<char>,
    p: Point,
) -> Map<Seq<char>, CanvasModel> {
    m.insert(id, m[id].with_point(p))
}

/// `msg` tells `to` that `u` was removed.
pub open spec fn is_remove_msg(msg: OutboundMessage, to: Seq<char>, u: Seq<char>) -> bool {
    &&& msg.to@ == to
    &&& (msg.request matches RemoteRequest::RemoveUser(v) && v@ == u)
}

/// `msg` tells `to` that `p` was drawn on the canvas under `id`.
pub open spec fn is_draw_msg(msg: OutboundMessage, to: Seq<char>, id: Seq<char>, p: Point) -> bool {
    &&& msg.to@ == to
    &&& (msg.request matches RemoteRequest::Draw(cid, q) && cid@ == id && q == p)
}

/// One node's protocol state: its own peer id and its canvas store.
pub struct State {
    pub our: String,
    pub canvases: Store,
}

impl State {
    /// The store is a well-formed map and always holds the canvas this node
    /// owns, keyed by its own id.
    pub open spec fn wf(self) -> bool {
        &&& self.canvases.wf()
        &&& self.canvases@.dom().contains(self.our@)
    }

    /// The canvas this node owns.
    pub open spec fn own_canvas(self) -> CanvasModel {
        self.canvases@[self.our@]
    }

    /// A node's state at startup: exactly one canvas, keyed by the node's
    /// own id, with the node as sole member and no points.
    pub fn new(our: String) -> (s: State)
        ensures
            s.wf(),
            s.our@ == our@,
            s.canvases@ == Map::<Seq<char>, CanvasModel>::empty().insert(
                our@,
                (CanvasModel { users: seq![our@], points: Seq::<Point>::empty() }),
            ),
    {
        let own = Canvas::owned_by(&our);
        let mut canvases = Store::new();
        canvases.insert(our.clone(), own);
        State { our, canvases }
    }

    /// Handle one local API call.
    ///
    /// `AddUser` records the invitee in the own canvas at once — an
    /// optimistic update that is not rolled back if the invite later fails —
    /// and hands the transport the invite to deliver. `RemoveUser` asks for
    /// the removal to be broadcast to every member as of before the removal,
    /// then removes locally. `Draw` on the own canvas appends and fans out to
    /// every member; on a foreign canvas it only forwards to the owner.
    pub fn handle_api_call(&mut self, call: ApiCall) -> (eff: ApiEffect)
        requires
            old(self).wf(),
        ensures
            final(self).wf(),
            final(self).our == old(self).our,
            (call matches ApiCall::AddUser(user) ==> {
                &&& final(self).canvases@ == member_added(
                    old(self).canvases@,
                    old(self).our@,
                    user@,
                )
                &&& (eff matches ApiEffect::AwaitInvite { target, snapshot } && target@ == user@
                    && snapshot@ == old(self).own_canvas().with_user(user@))
            }),
            (call matches ApiCall::RemoveUser(user) ==> {
                &&& final(self).canvases@ == member_removed(
                    old(self).canvases@,
                    old(self).our@,
                    user@,
                )
                &&& (eff matches ApiEffect::Done { sends } && sends@.len() == old(
                    self,
                ).own_canvas().users.len() && (forall|i: int|
                    0 <= i < sends@.len() ==> is_remove_msg(
                        #[trigger] sends@[i],
                        old(self).own_canvas().users[i],
                        user@,
                    )))
            }),
            (call matches ApiCall::Draw(canvas_id, p) ==> (if canvas_id@ == old(self).our@ {
                &&& final(self).canvases@ == point_appended(
                    old(self).canvases@,
                    old(self).our@,
                    p,
                )
                &&& (eff matches ApiEffect::Done { sends } && sends@.len() == old(
                    self,
                ).own_canvas().users.len() && (forall|i: int|
                    0 <= i < sends@.len() ==> is_draw_msg(
                        #[trigger] sends@[i],
                        old(self).own_canvas().users[i],
                        canvas_id@,
                        p,
                    )))
            } else {
                &&& final(self).canvases@ == old(self).canvases@
                &&& (eff matches ApiEffect::Done { sends } && sends@.len() == 1 && is_draw_msg(
                    sends@[0],
                    canvas_id@,
                    canvas_id@,
                    p,
                ))
            })),
            (call matches ApiCall::GetCanvasList ==> {
                &&& final(self).canvases@ == old(self).canvases@
                &&& (eff matches ApiEffect::CanvasList { ids } && names_of(ids@).to_set() == old(
                    self,
                ).canvases@.dom() && names_of(ids@).no_duplicates())
            }),
            (call matches ApiCall::GetCanvas(canvas_id) ==> {
                &&& final(self).canvases@ == old(self).canvases@
                &&& (eff matches ApiEffect::CanvasState { canvas } && (match canvas {
                    Option::Some(c) => old(self).canvases@.dom().contains(canvas_id@) && c@ == old(
                        self,
                    ).canvases@[canvas_id@],
                    Option::None => !old(self).canvases@.dom().contains(canvas_id@),
                }))
            }),
    {
        match call {
            ApiCall::AddUser(user) => {
                let our = self.our.clone();
                // optimistic local update, kept even if the invite fails
                self.canvases.add_user_to(&our, &user);
                let snapshot = match self.canvases.get(&our) {
                    Some(c) => c,
                    None => unreached(),
                };
                ApiEffect::AwaitInvite { target: user, snapshot }
            },
            ApiCall::RemoveUser(user) => {
                let our = self.our.clone();
                // the broadcast targets the membership as of before removal
                let own = match self.canvases.get(&our) {
                    Some(c) => c,
                    None => unreached(),
                };
                let mut sends: Vec<OutboundMessage> = Vec::new();
                let mut i: usize = 0;
                while i < own.users.len()
                    invariant
                        i <= own.users.len(),
                        sends@.len() == i,
                        forall|j: int|
                            0 <= j < i ==> is_remove_msg(
                                #[trigger] sends@[j],
                                own@.users[j],
                                user@,
                            ),
                    decreases own.users.len() - i,
                {
                    sends.push(
                        OutboundMessage {
                            to: own.users[i].clone(),
                            request: RemoteRequest::RemoveUser(user.clone()),
                        },
                    );
                    i += 1;
                }
                self.canvases.remove_user_from(&our, &user);
                ApiEffect::Done { sends }
            },
            ApiCall::Draw(canvas_id, p) => {
                if canvas_id == self.our {
                    let our = self.our.clone();
                    self.canvases.push_point_to(&our, p);
                    // the append leaves membership as it was; fan out to it
                    let own = match self.canvases.get(&our) {
                        Some(c) => c,
                        None => unreached(),
                    };
                    let mut sends: Vec<OutboundMessage> = Vec::new();
                    let mut i: usize = 0;
                    while i < own.users.len()
                        invariant
                            i <= own.users.len(),
                            sends@.len() == i,
                            forall|j: int|
                                0 <= j < i ==> is_draw_msg(
                                    #[trigger] sends@[j],
                                    own@.users[j],
                                    canvas_id@,
                                    p,
                                ),
                    decreases own.users.len() - i,
                    {
                        sends.push(
                            OutboundMessage {
                                to: own.users[i].clone(),
                                request: RemoteRequest::Draw(canvas_id.clone(), p),
                            },
                        );
                        i += 1;
                    }
                    ApiEffect::Done { sends }
                } else {
                    let mut sends: Vec<OutboundMessage> = Vec::new();
                    let to = canvas_id.clone();
                    sends.push(
                        OutboundMessage { to, request: RemoteRequest::Draw(canvas_id, p) },
                    );
                    ApiEffect::Done { sends }
                }
            },
            ApiCall::GetCanvasList => {
                ApiEffect::CanvasList { ids: self.canvases.list_ids() }
            },
            ApiCall::GetCanvas(canvas_id) => {
                ApiEffect::CanvasState { canvas: self.canvases.get(&canvas_id) }
            },
        }
    }

    /// Handle one request from the remote peer `source`.
    ///
    /// `snapshot` is the canvas attached to an `AddUser` invite, already
    /// decoded by the gateway; `None` stands for a payload that did not
    /// parse, which is answered with `InviteRejected` and no state change.
    /// A `Draw` whose sender is not a member of the target canvas is dropped
    /// without any state change, push or fan-out; a `Draw` accepted here is
    /// always pushed to the local UI, and is appended to the point log only
    /// on a follower copy — on the own canvas it is fanned out instead. The
    /// canvas this node owns is never removed, whatever arrives.
    pub fn handle_remote_request(
        &mut self,
        source: &String,
        request: RemoteRequest,
        snapshot: Option<Canvas>,
    ) -> (eff: RemoteEffect)
        requires
            old(self).wf(),
        ensures
            final(self).wf(),
            final(self).our == old(self).our,
            (request matches RemoteRequest::AddUser(user) ==> (if user@ == old(self).our@ {
                match snapshot {
                    Option::Some(c) => {
                        &&& final(self).canvases@ == old(self).canvases@.insert(source@, c@)
                        &&& eff.reply == Some(RemoteResponse::InviteAccepted)
                        &&& eff.push is None
                        &&& eff.sends@.len() == 0
                    },
                    Option::None => {
                        &&& final(self).canvases@ == old(self).canvases@
                        &&& eff.reply == Some(RemoteResponse::InviteRejected)
                        &&& eff.push is None
                        &&& eff.sends@.len() == 0
                    },
                }
            } else {
                &&& (old(self).canvases@.dom().contains(source@) ==> final(self).canvases@
                    == member_added(old(self).canvases@, source@, user@))
                &&& (!old(self).canvases@.dom().contains(source@) ==> final(self).canvases@ == old(
                    self,
                ).canvases@)
                &&& eff.reply is None
                &&& eff.push is None
                &&& eff.sends@.len() == 0
            })),
            (request matches RemoteRequest::RemoveUser(user) ==> (if user@ == old(self).our@ {
                &&& (source@ != old(self).our@ ==> final(self).canvases@ == old(
                    self,
                ).canvases@.remove(source@))
                &&& (source@ == old(self).our@ ==> final(self).canvases@ == old(self).canvases@)
                &&& eff.reply is None
                &&& eff.push is None
                &&& eff.sends@.len() == 0
            } else {
                &&& (old(self).canvases@.dom().contains(source@) ==> final(self).canvases@
                    == member_removed(old(self).canvases@, source@, user@))
                &&& (!old(self).canvases@.dom().contains(source@) ==> final(self).canvases@ == old(
                    self,
                ).canvases@)
                &&& eff.reply is None
                &&& eff.push is None
                &&& eff.sends@.len() == 0
            })),
            (request matches RemoteRequest::Draw(canvas_id, p) ==> (if !old(
                self,
            ).canvases@.dom().contains(canvas_id@) {
                // unknown canvas: dropped
                &&& final(self).canvases@ == old(self).canvases@
                &&& eff.reply is None
                &&& eff.push is None
                &&& eff.sends@.len() == 0
            } else if !old(self).canvases@[canvas_id@].has_user(source@) {
                // sender is no member: dropped without append, push or fan-out
                &&& final(self).canvases@ == old(self).canvases@
                &&& eff.reply is None
                &&& eff.push is None
                &&& eff.sends@.len() == 0
            } else if canvas_id@ == old(self).our@ {
                // owner role: surface to the UI and fan out, no append here
                &&& final(self).canvases@ == old(self).canvases@
                &&& eff.reply is None
                &&& (eff.push matches Some(u) && u.canvas_id@ == canvas_id@ && u.point == p)
                &&& eff.sends@.len() == old(self).canvases@[canvas_id@].users.len()
                &&& (forall|i: int|
                    0 <= i < eff.sends@.len() ==> is_draw_msg(
                        #[trigger] eff.sends@[i],
                        old(self).canvases@[canvas_id@].users[i],
                        canvas_id@,
                        p,
                    ))
            } else {
                // follower role: surface to the UI and append to the copy
                &&& final(self).canvases@ == point_appended(old(self).canvases@, canvas_id@, p)
                &&& eff.reply is None
                &&& (eff.push matches Some(u) && u.canvas_id@ == canvas_id@ && u.point == p)
                &&& eff.sends@.len() == 0
            })),
    {
        match request {
            RemoteRequest::AddUser(user) => {
                if user == self.our {
                    // we are being invited into the canvas `source` owns
                    match snapshot {
                        Some(c) => {
                            self.canvases.insert(source.clone(), c);
                            RemoteEffect {
                                reply: Some(RemoteResponse::InviteAccepted),
                                push: None,
                                sends: Vec::new(),
                            }
                        },
                        None => RemoteEffect {
                            reply: Some(RemoteResponse::InviteRejected),
                            push: None,
                            sends: Vec::new(),
                        },
                    }
                } else {
                    // the owner `source` adds a third party to its canvas
                    self.canvases.add_user_to(source, &user);
                    RemoteEffect { reply: None, push: None, sends: Vec::new() }
                }
            },
            RemoteRequest::RemoveUser(user) => {
                if user == self.our {
                    // we are evicted from the canvas `source` owns: the
                    // follower copy goes; the own canvas never does
                    if !(*source == self.our) {
                        self.canvases.remove(source);
                    }
                    RemoteEffect { reply: None, push: None, sends: Vec::new() }
                } else {
                    self.canvases.remove_user_from(source, &user);
                    RemoteEffect { reply: None, push: None, sends: Vec::new() }
                }
            },
            RemoteRequest::Draw(canvas_id, p) => {
                match self.canvases.get(&canvas_id) {
                    None => RemoteEffect { reply: None, push: None, sends: Vec::new() },
                    Some(canvas) => {
                        if !canvas.has_user(source) {
                            RemoteEffect { reply: None, push: None, sends: Vec::new() }
                        } else {
                            let push = Some(
                                PushUpdate { canvas_id: canvas_id.clone(), point: p },
                            );
                            if canvas_id == self.our {
                                let mut sends: Vec<OutboundMessage> = Vec::new();
                                let mut i: usize = 0;
                                while i < canvas.users.len()
                                    invariant
                                        i <= canvas.users.len(),
                                        sends@.len() == i,
                                        forall|j: int|
                                            0 <= j < i ==> is_draw_msg(
                                                #[trigger] sends@[j],
                                                canvas@.users[j],
                                                canvas_id@,
                                                p,
                                            ),
                                    decreases canvas.users.len() - i,
                                {
                                    sends.push(
                                        OutboundMessage {
                                            to: canvas.users[i].clone(),
                                            request: RemoteRequest::Draw(canvas_id.clone(), p),
                                        },
                                    );
                                    i += 1;
                                }
                                RemoteEffect { reply: None, push, sends }
                            } else {
                                self.canvases.push_point_to(&canvas_id, p);
                                RemoteEffect { reply: None, push, sends: Vec::new() }
                            }
                        }
                    },
                }
            },
        }
    }
}

/// Turn the transport's outcome of the blocking invite delivery into the
/// result of the `AddUser` API call: a failed or timed-out delivery is a
/// `DeliveryError`; an answer that is anything but a well-formed
/// `InviteAccepted` is an `InviteError`.
pub fn finish_add_user(reply: &InviteReply) -> (r: Result<(), ApiError>)
    ensures
        (reply matches InviteReply::Failed ==> r == Err::<(), ApiError>(ApiError::DeliveryError)),
        (reply matches InviteReply::Delivered(bytes) ==> (if codec::response_decoded(bytes@)
            == Some(RemoteResponse::InviteAccepted) {
            r == Ok::<(), ApiError>(())
        } else {
            r == Err::<(), ApiError>(ApiError::InviteError)
        })),
{
    match reply {
        InviteReply::Failed => Err(ApiError::DeliveryError),
        InviteReply::Delivered(bytes) => match codec::decode_response(bytes) {
            Some(RemoteResponse::InviteAccepted) => Ok(()),
            _ => Err(ApiError::InviteError),
        },
    }
}

/// The HTTP status code the gateway reports for the result of an API call.
pub fn status_code(r: &Result<(), ApiError>) -> (code: u16)
    ensures
        (r matches Ok(u) ==> code == 200),
        (r matches Err(e) && e == ApiError::DeliveryError ==> code == 500),
        (r matches Err(e) && e == ApiError::InviteError ==> code == 502),
{
    match r {
        Ok(_) => 200,
        Err(ApiError::DeliveryError) => 500,
        Err(ApiError::InviteError) => 502,
    }
}

} // verus!
