use canvas_demo::canvas::Canvas;
use canvas_demo::codec::{decode_response, encode_response};
use canvas_demo::point::Point;
use canvas_demo::protocol::{
    finish_add_user, status_code, ApiCall, ApiEffect, ApiError, InviteReply, OutboundMessage,
    RemoteRequest, RemoteResponse, State,
};

fn s(text: &str) -> String {
    text.to_string()
}

/// Run a local AddUser on the owner and deliver the invite to the invitee,
/// returning the invitee's reply.
fn deliver_invite(owner: &mut State, invitee: &mut State, user: &str) -> Option<RemoteResponse> {
    let eff = owner.handle_api_call(ApiCall::AddUser(s(user)));
    match eff {
        ApiEffect::AwaitInvite { target, snapshot } => {
            assert_eq!(target, s(user));
            let source = owner.our.clone();
            let reff = invitee.handle_remote_request(
                &source,
                RemoteRequest::AddUser(target),
                Some(snapshot),
            );
            assert!(reff.push.is_none());
            assert!(reff.sends.is_empty());
            reff.reply
        }
        _ => panic!("AddUser must await the invite outcome"),
    }
}

fn get_canvas(state: &mut State, id: &str) -> Option<Canvas> {
    match state.handle_api_call(ApiCall::GetCanvas(s(id))) {
        ApiEffect::CanvasState { canvas } => canvas,
        _ => panic!("GetCanvas must answer with a canvas state"),
    }
}

fn list_ids(state: &mut State) -> Vec<String> {
    match state.handle_api_call(ApiCall::GetCanvasList) {
        ApiEffect::CanvasList { ids } => ids,
        _ => panic!("GetCanvasList must answer with the id list"),
    }
}

#[test]
fn startup_holds_own_canvas() {
    let mut alice = State::new(s("alice"));
    assert_eq!(list_ids(&mut alice), vec![s("alice")]);
    let own = get_canvas(&mut alice, "alice").expect("own canvas present");
    assert_eq!(own.users, vec![s("alice")]);
    assert!(own.points.is_empty());
}

#[test]
fn scenario_a_invite_accepted() {
    let mut alice = State::new(s("alice"));
    let mut bob = State::new(s("bob"));
    let reply = deliver_invite(&mut alice, &mut bob, "bob");
    assert_eq!(reply, Some(RemoteResponse::InviteAccepted));

    // the owner's canvas gained bob at once
    let own = get_canvas(&mut alice, "alice").expect("own canvas present");
    assert_eq!(own.users, vec![s("alice"), s("bob")]);

    // bob now holds a follower copy equal to the snapshot alice sent
    let copy = get_canvas(&mut bob, "alice").expect("follower copy present");
    assert_eq!(copy.users, vec![s("alice"), s("bob")]);
    assert!(copy.points.is_empty());
    let mut ids = list_ids(&mut bob);
    ids.sort();
    assert_eq!(ids, vec![s("alice"), s("bob")]);

    // and the wire reply closes the call successfully
    let bytes = encode_response(reply.unwrap());
    assert_eq!(finish_add_user(&InviteReply::Delivered(bytes)), Ok(()));
    assert_eq!(status_code(&Ok(())), 200);
}

#[test]
fn scenario_b_draw_fans_out_and_follower_appends() {
    let mut alice = State::new(s("alice"));
    let mut bob = State::new(s("bob"));
    deliver_invite(&mut alice, &mut bob, "bob");

    let p1 = Point::new(3, 4);
    let eff = alice.handle_api_call(ApiCall::Draw(s("alice"), p1));
    let sends = match eff {
        ApiEffect::Done { sends } => sends,
        _ => panic!("Draw must finish locally"),
    };
    // fan-out to every member, in membership order
    let targets: Vec<String> = sends.iter().map(|m| m.to.clone()).collect();
    assert_eq!(targets, vec![s("alice"), s("bob")]);
    for m in &sends {
        match &m.request {
            RemoteRequest::Draw(id, q) => {
                assert_eq!(id, &s("alice"));
                assert_eq!(*q, p1);
            }
            _ => panic!("fan-out must carry the draw"),
        }
    }
    // the owner appended to its own log
    let own = get_canvas(&mut alice, "alice").expect("own canvas present");
    assert_eq!(own.points, vec![p1]);

    // bob, a member, receives the draw: a push for the UI and an append to
    // the follower copy
    let reff = bob.handle_remote_request(&s("alice"), RemoteRequest::Draw(s("alice"), p1), None);
    assert!(reff.reply.is_none());
    assert!(reff.sends.is_empty());
    let push = reff.push.expect("accepted draws are pushed to the UI");
    assert_eq!(push.canvas_id, s("alice"));
    assert_eq!(push.point, p1);
    let copy = get_canvas(&mut bob, "alice").expect("follower copy present");
    assert_eq!(copy.points, vec![p1]);

    // the owner receiving its own fan-out pushes and fans out again, but
    // does not append a second time
    let back = alice.handle_remote_request(&s("alice"), RemoteRequest::Draw(s("alice"), p1), None);
    assert!(back.push.is_some());
    assert_eq!(back.sends.len(), 2);
    let own = get_canvas(&mut alice, "alice").expect("own canvas present");
    assert_eq!(own.points, vec![p1]);
}

#[test]
fn scenario_c_nonmember_draw_dropped() {
    let mut alice = State::new(s("alice"));
    let p2 = Point::new(7, 8);
    let eff = alice.handle_remote_request(&s("carol"), RemoteRequest::Draw(s("alice"), p2), None);
    assert!(eff.reply.is_none());
    assert!(eff.push.is_none());
    assert!(eff.sends.is_empty());
    let own = get_canvas(&mut alice, "alice").expect("own canvas present");
    assert!(own.points.is_empty());
    assert_eq!(own.users, vec![s("alice")]);
}

#[test]
fn scenario_d_timeout_keeps_optimistic_member() {
    let mut alice = State::new(s("alice"));
    let eff = alice.handle_api_call(ApiCall::AddUser(s("bob")));
    match eff {
        ApiEffect::AwaitInvite { target, snapshot } => {
            assert_eq!(target, s("bob"));
            assert_eq!(snapshot.users, vec![s("alice"), s("bob")]);
        }
        _ => panic!("AddUser must await the invite outcome"),
    }
    // the peer is unreachable: the call fails with a delivery error ...
    let r = finish_add_user(&InviteReply::Failed);
    assert_eq!(r, Err(ApiError::DeliveryError));
    assert_eq!(status_code(&r), 500);
    // ... and the optimistic membership update is not rolled back
    let own = get_canvas(&mut alice, "alice").expect("own canvas present");
    assert_eq!(own.users, vec![s("alice"), s("bob")]);
}

#[test]
fn invite_rejected_and_malformed_replies() {
    // a declined invite
    let bytes = encode_response(RemoteResponse::InviteRejected);
    let r = finish_add_user(&InviteReply::Delivered(bytes));
    assert_eq!(r, Err(ApiError::InviteError));
    assert_eq!(status_code(&r), 502);
    // an answer of an unexpected shape
    let r = finish_add_user(&InviteReply::Delivered(vec![9]));
    assert_eq!(r, Err(ApiError::InviteError));
    let r = finish_add_user(&InviteReply::Delivered(Vec::new()));
    assert_eq!(r, Err(ApiError::InviteError));
}

#[test]
fn malformed_snapshot_is_rejected_without_state_change() {
    let mut bob = State::new(s("bob"));
    let eff = bob.handle_remote_request(&s("alice"), RemoteRequest::AddUser(s("bob")), None);
    assert_eq!(eff.reply, Some(RemoteResponse::InviteRejected));
    assert!(eff.push.is_none());
    assert!(eff.sends.is_empty());
    assert_eq!(list_ids(&mut bob), vec![s("bob")]);
}

#[test]
fn remove_user_broadcasts_then_removes() {
    let mut alice = State::new(s("alice"));
    let mut bob = State::new(s("bob"));
    deliver_invite(&mut alice, &mut bob, "bob");

    let eff = alice.handle_api_call(ApiCall::RemoveUser(s("bob")));
    let sends = match eff {
        ApiEffect::Done { sends } => sends,
        _ => panic!("RemoveUser must finish locally"),
    };
    // broadcast to the membership as of before the removal
    let targets: Vec<String> = sends.iter().map(|m| m.to.clone()).collect();
    assert_eq!(targets, vec![s("alice"), s("bob")]);
    for m in &sends {
        match &m.request {
            RemoteRequest::RemoveUser(u) => assert_eq!(u, &s("bob")),
            _ => panic!("broadcast must carry the removal"),
        }
    }
    let own = get_canvas(&mut alice, "alice").expect("own canvas present");
    assert_eq!(own.users, vec![s("alice")]);

    // bob receives the eviction and deletes the follower copy
    bob.handle_remote_request(&s("alice"), RemoteRequest::RemoveUser(s("bob")), None);
    assert!(get_canvas(&mut bob, "alice").is_none());
    assert_eq!(list_ids(&mut bob), vec![s("bob")]);
}

#[test]
fn remove_user_twice_changes_nothing_more() {
    let mut alice = State::new(s("alice"));
    let mut bob = State::new(s("bob"));
    deliver_invite(&mut alice, &mut bob, "bob");

    alice.handle_api_call(ApiCall::RemoveUser(s("bob")));
    let after_first = get_canvas(&mut alice, "alice").expect("own canvas present");
    alice.handle_api_call(ApiCall::RemoveUser(s("bob")));
    let after_second = get_canvas(&mut alice, "alice").expect("own canvas present");
    assert_eq!(after_first.users, after_second.users);
    assert_eq!(after_first.points, after_second.points);
    assert_eq!(after_second.users, vec![s("alice")]);
}

#[test]
fn invite_then_remove_restores_membership() {
    let mut alice = State::new(s("alice"));
    let mut bob = State::new(s("bob"));
    let before = get_canvas(&mut alice, "alice").expect("own canvas present");
    deliver_invite(&mut alice, &mut bob, "bob");
    alice.handle_api_call(ApiCall::RemoveUser(s("bob")));
    let after = get_canvas(&mut alice, "alice").expect("own canvas present");
    assert_eq!(before.users, after.users);
    assert_eq!(before.points, after.points);
}

#[test]
fn follower_appends_draws_in_order() {
    let mut alice = State::new(s("alice"));
    let mut bob = State::new(s("bob"));
    deliver_invite(&mut alice, &mut bob, "bob");

    let p1 = Point::new(1, 1);
    let p2 = Point::new(2, 2);
    bob.handle_remote_request(&s("alice"), RemoteRequest::Draw(s("alice"), p1), None);
    bob.handle_remote_request(&s("alice"), RemoteRequest::Draw(s("alice"), p2), None);
    let copy = get_canvas(&mut bob, "alice").expect("follower copy present");
    assert_eq!(copy.points, vec![p1, p2]);
}

#[test]
fn draw_on_foreign_canvas_only_forwards() {
    let mut bob = State::new(s("bob"));
    let p = Point::new(5, 6);
    let eff = bob.handle_api_call(ApiCall::Draw(s("alice"), p));
    let sends = match eff {
        ApiEffect::Done { sends } => sends,
        _ => panic!("Draw must finish locally"),
    };
    assert_eq!(sends.len(), 1);
    let OutboundMessage { to, request } = &sends[0];
    assert_eq!(to, &s("alice"));
    match request {
        RemoteRequest::Draw(id, q) => {
            assert_eq!(id, &s("alice"));
            assert_eq!(*q, p);
        }
        _ => panic!("the forward must carry the draw"),
    }
    // no local state was touched: bob holds no copy of alice's canvas
    assert!(get_canvas(&mut bob, "alice").is_none());
    let own = get_canvas(&mut bob, "bob").expect("own canvas present");
    assert!(own.points.is_empty());
}

#[test]
fn draw_on_unknown_canvas_dropped() {
    let mut alice = State::new(s("alice"));
    let eff = alice.handle_remote_request(
        &s("bob"),
        RemoteRequest::Draw(s("zed"), Point::new(0, 0)),
        None,
    );
    assert!(eff.reply.is_none());
    assert!(eff.push.is_none());
    assert!(eff.sends.is_empty());
    assert_eq!(list_ids(&mut alice), vec![s("alice")]);
}

#[test]
fn owner_adds_third_party_to_follower_copy() {
    let mut alice = State::new(s("alice"));
    let mut bob = State::new(s("bob"));
    deliver_invite(&mut alice, &mut bob, "bob");

    // alice tells bob that carol joined her canvas
    let eff = bob.handle_remote_request(&s("alice"), RemoteRequest::AddUser(s("carol")), None);
    assert!(eff.reply.is_none());
    let copy = get_canvas(&mut bob, "alice").expect("follower copy present");
    assert_eq!(copy.users, vec![s("alice"), s("bob"), s("carol")]);

    // the same announcement from an unknown owner is silently ignored
    let eff = bob.handle_remote_request(&s("zed"), RemoteRequest::AddUser(s("carol")), None);
    assert!(eff.reply.is_none());
    let mut ids = list_ids(&mut bob);
    ids.sort();
    assert_eq!(ids, vec![s("alice"), s("bob")]);
}

#[test]
fn remove_for_unknown_canvas_is_ignored() {
    let mut alice = State::new(s("alice"));
    let eff = alice.handle_remote_request(&s("zed"), RemoteRequest::RemoveUser(s("bob")), None);
    assert!(eff.reply.is_none());
    assert!(eff.push.is_none());
    assert!(eff.sends.is_empty());
    assert_eq!(list_ids(&mut alice), vec![s("alice")]);
}

#[test]
fn own_canvas_is_never_removed() {
    let mut alice = State::new(s("alice"));
    let mut bob = State::new(s("bob"));
    // alice holds a follower copy of bob's canvas
    deliver_invite(&mut bob, &mut alice, "alice");
    assert!(get_canvas(&mut alice, "bob").is_some());

    // eviction from bob's canvas deletes only that copy
    alice.handle_remote_request(&s("bob"), RemoteRequest::RemoveUser(s("alice")), None);
    assert!(get_canvas(&mut alice, "bob").is_none());
    assert!(get_canvas(&mut alice, "alice").is_some());

    // even a self-addressed eviction leaves the own canvas in place
    alice.handle_remote_request(&s("alice"), RemoteRequest::RemoveUser(s("alice")), None);
    assert!(get_canvas(&mut alice, "alice").is_some());
    assert_eq!(list_ids(&mut alice), vec![s("alice")]);
}

#[test]
fn response_wire_form_is_exact() {
    assert_eq!(encode_response(RemoteResponse::InviteAccepted), vec![1]);
    assert_eq!(encode_response(RemoteResponse::InviteRejected), vec![0]);
    assert_eq!(decode_response(&vec![1]), Some(RemoteResponse::InviteAccepted));
    assert_eq!(decode_response(&vec![0]), Some(RemoteResponse::InviteRejected));
    assert_eq!(decode_response(&vec![2]), None);
    assert_eq!(decode_response(&Vec::new()), None);
    assert_eq!(decode_response(&vec![1, 0]), None);
}

#[test]
fn status_codes_are_exact() {
    assert_eq!(status_code(&Ok(())), 200);
    assert_eq!(status_code(&Err(ApiError::DeliveryError)), 500);
    assert_eq!(status_code(&Err(ApiError::InviteError)), 502);
}

#[test]
fn snapshot_overwrites_prior_follower_copy() {
    let mut alice = State::new(s("alice"));
    let mut bob = State::new(s("bob"));
    deliver_invite(&mut alice, &mut bob, "bob");

    // alice draws, then re-invites: the new snapshot replaces bob's copy
    alice.handle_api_call(ApiCall::Draw(s("alice"), Point::new(9, 9)));
    deliver_invite(&mut alice, &mut bob, "bob");
    let copy = get_canvas(&mut bob, "alice").expect("follower copy present");
    assert_eq!(copy.points, vec![Point::new(9, 9)]);
    assert_eq!(copy.users, vec![s("alice"), s("bob")]);
}
