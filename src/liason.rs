use vstd::prelude::*;

verus! {

/// The frames of a message on a router socket: the peer's routing identity,
/// an empty delimiter, and the payload.
pub open spec fn envelope(peer: Seq<u8>, payload: Seq<u8>) -> Seq<Seq<u8>> {
    seq![peer, Seq::empty(), payload]
}

/// Peer and payload of a message read from a router socket; none for a
/// message of another shape.
pub open spec fn opened(frames: Seq<Seq<u8>>) -> Option<(Seq<u8>, Seq<u8>)> {
    if frames.len() == 3 && frames[1].len() == 0 {
        Some((frames[0], frames[2]))
    } else {
        None
    }
}

pub open spec fn frames_of(frames: Seq<Vec<u8>>) -> Seq<Seq<u8>> {
    frames.map_values(|f: Vec<u8>| f@)
}

/// Splits a message read from a router socket into peer identity and
/// payload. A message with another frame count, or with a delimiter that is
/// not empty, is dropped.
pub fn open_envelope(frames: Vec<Vec<u8>>) -> (r: Option<(Vec<u8>, Vec<u8>)>)
    ensures
        match r {
            Some(p) => opened(frames_of(frames@)) == Some((p.0@, p.1@)),
            None => opened(frames_of(frames@)) is None,
        },
{
    if frames.len() != 3 || frames[1].len() != 0 {
        return None;
    }
    let ghost fs = frames_of(frames@);
    let mut frames = frames;
    let payload = match frames.pop() {
        Some(f) => f,
        None => return None,
    };
    let _delimiter = frames.pop();
    let peer = match frames.pop() {
        Some(f) => f,
        None => return None,
    };
    assert(fs[0] == peer@ && fs[2] == payload@);
    Some((peer, payload))
}

/// The frames that carry `payload` to the peer with routing identity `peer`.
pub fn seal_envelope(peer: Vec<u8>, payload: Vec<u8>) -> (r: Vec<Vec<u8>>)
    ensures
        frames_of(r@) == envelope(peer@, payload@),
{
    let ghost p = peer@;
    let ghost q = payload@;
    let mut r: Vec<Vec<u8>> = Vec::new();
    r.push(peer);
    r.push(Vec::new());
    r.push(payload);
    assert(frames_of(r@) =~= envelope(p, q));
    r
}

/// Opening the frames of a sealed message gives back its peer and payload.
pub proof fn lemma_envelope_round_trip(peer: Seq<u8>, payload: Seq<u8>)
    ensures
        opened(envelope(peer, payload)) == Some((peer, payload)),
{
}

} // verus!
