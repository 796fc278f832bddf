//! Sessions driven round by round. The round functions are stood in for by a
//! deterministic engine that checks what it is handed and answers with bytes
//! that name the round and the party.

use gg18_driver::context::{
    deliver, Fanout, Outgoing, ProtocolType, RoundInput, RoundOutputType, RoundReply, RoundRequest,
};
use gg18_driver::error::{ProtocolError, RoundError};
use gg18_driver::fanout::{broadcast, unicast};
use gg18_driver::framing::{pack, unpack};
use gg18_driver::group::{Gg18Group, Group};
use gg18_driver::keygen::KeygenContext;
use gg18_driver::persist::{seal, unseal, KIND_GROUP, KIND_KEYGEN, KIND_SIGN, MAGIC, VERSION};
use gg18_driver::protocol::Protocol;
use gg18_driver::session::{Algorithm, Session};
use gg18_driver::sign::SignContext;
use gg18_driver::wrapper::ProtoWrapper;

const HELLO_SHA256: [u8; 32] = [
    0x2c, 0xf2, 0x4d, 0xba, 0x5f, 0xb0, 0xa3, 0x0e, 0x26, 0xe8, 0x3b, 0x2a, 0xc5, 0xb9, 0xe2, 0x9e,
    0x1b, 0x16, 0x1e, 0x5c, 0x1f, 0xa7, 0x42, 0x5e, 0x73, 0x04, 0x33, 0x62, 0x93, 0x8b, 0x98, 0x24,
];

fn varint(mut value: u64, out: &mut Vec<u8>) {
    while value >= 0x80 {
        out.push((value as u8 & 0x7f) | 0x80);
        value >>= 7;
    }
    out.push(value as u8);
}

fn keygen_init(parties: u32, threshold: u32, index: u32) -> Vec<u8> {
    let mut out = Vec::new();
    for (key, value) in [(0x08u8, parties), (0x10, threshold), (0x18, index)] {
        out.push(key);
        varint(value as u64, &mut out);
    }
    out
}

fn sign_init(indices: &[u32], index: u32, hash: &[u8]) -> Vec<u8> {
    let mut packed = Vec::new();
    for i in indices {
        varint(*i as u64, &mut packed);
    }
    let mut out = vec![0x0a];
    varint(packed.len() as u64, &mut out);
    out.extend_from_slice(&packed);
    out.push(0x10);
    varint(index as u64, &mut out);
    out.push(0x1a);
    varint(hash.len() as u64, &mut out);
    out.extend_from_slice(hash);
    out
}

fn public_key() -> Vec<u8> {
    let mut key = vec![0x02];
    key.extend_from_slice(&[0x5a; 32]);
    key
}

fn signature() -> Vec<u8> {
    (0..65u8).collect()
}

/// What the stand-in engine keeps as a round's context: the protocol, the
/// round, the number of peers, and who it is.
fn context(protocol: ProtocolType, round: u8, peers: u8, me: u8) -> Vec<u8> {
    let p = match protocol {
        ProtocolType::Keygen => b'k',
        ProtocolType::Sign => b's',
    };
    vec![p, round, peers, me]
}

fn payload(protocol: ProtocolType, round: u8, from: u8, to: Option<u8>) -> Vec<u8> {
    let mut out = context(protocol, round, 0, from);
    out.push(to.map_or(0xff, |t| t));
    out
}

fn is_unicast(protocol: ProtocolType, round: u8) -> bool {
    match protocol {
        ProtocolType::Keygen => round == 3,
        ProtocolType::Sign => round == 2,
    }
}

/// Runs one round as the real round functions would be run: on the context of
/// the round before and the round's input.
fn engine(req: &RoundRequest) -> Result<RoundReply, RoundError> {
    let (peers, me): (u8, u8) = match &req.input {
        RoundInput::KeygenInit { parties, threshold, index } => {
            if *parties < 2 || *threshold < 1 || threshold > parties || index >= parties {
                return Err(RoundError::CryptoFailure);
            }
            ((*parties - 1) as u8, *index as u8)
        },
        RoundInput::SignInit { indices, position, hash } => {
            if req.context != b"group" || *position >= indices.len() || hash.len() != 32 {
                return Err(RoundError::CryptoFailure);
            }
            // The group's threshold is two.
            if indices.len() < 2 {
                return Err(RoundError::CryptoFailure);
            }
            ((indices.len() - 1) as u8, *position as u8)
        },
        RoundInput::Messages(msgs) => {
            if req.context.len() != 4 || req.context[1] + 1 != req.round {
                return Err(RoundError::CryptoFailure);
            }
            let (peers, me) = (req.context[2], req.context[3]);
            if msgs.len() != peers as usize {
                return Err(RoundError::CryptoFailure);
            }
            for (i, msg) in msgs.iter().enumerate() {
                let from = if (i as u8) < me { i as u8 } else { i as u8 + 1 };
                let to = if is_unicast(req.protocol, req.round - 1) { Some(me) } else { None };
                if *msg != payload(req.protocol, req.round - 1, from, to) {
                    return Err(RoundError::MalformedPeerMessage);
                }
            }
            (peers, me)
        },
    };
    let last = match req.protocol {
        ProtocolType::Keygen => req.round == 6,
        ProtocolType::Sign => req.round == 10,
    };
    let output = if !last {
        RoundOutputType::Inter(context(req.protocol, req.round, peers, me))
    } else if req.protocol == ProtocolType::Keygen {
        RoundOutputType::Final(b"group".to_vec())
    } else {
        RoundOutputType::Final(signature())
    };
    let messages = if last && req.protocol == ProtocolType::Sign {
        Outgoing::Silent
    } else if last {
        Outgoing::Broadcast(public_key())
    } else if is_unicast(req.protocol, req.round) {
        let others = (0..=peers).filter(|p| *p != me);
        Outgoing::Unicast(others.map(|to| payload(req.protocol, req.round, me, Some(to))).collect())
    } else {
        Outgoing::Broadcast(payload(req.protocol, req.round, me, None))
    };
    Ok(RoundReply { output, messages })
}

/// One round of one session: ask, run, advance.
fn step(session: &mut Session, data: &[u8]) -> Result<Vec<u8>, ProtocolError> {
    let outcome = match session.request(data) {
        Ok(req) => engine(&req),
        Err(_) => Err(RoundError::CryptoFailure),
    };
    session.advance(data, outcome)
}

/// What the relay does: hands every party the messages that the others meant
/// for it, in the parties' order.
fn relay(outgoing: &[Vec<u8>]) -> Vec<Vec<u8>> {
    let lists: Vec<Vec<Vec<u8>>> = outgoing.iter().map(|e| unpack(e).unwrap()).collect();
    (0..outgoing.len())
        .map(|to| {
            let msgs = (0..outgoing.len())
                .filter(|from| *from != to)
                .map(|from| lists[from][if to < from { to } else { to - 1 }].clone())
                .collect();
            pack(&msgs)
        })
        .collect()
}

/// Runs a protocol among sessions from their opening messages to the end and
/// gives the envelopes of the last round.
fn run(sessions: &mut [Session], inits: Vec<Vec<u8>>, rounds: u8) -> Vec<Vec<u8>> {
    let mut incoming = inits;
    let mut outgoing = Vec::new();
    for round in 1..=rounds {
        outgoing = sessions
            .iter_mut()
            .zip(incoming.iter())
            .map(|(session, data)| step(session, data).unwrap())
            .collect();
        for session in sessions.iter() {
            assert_eq!(session.round(), round);
        }
        if round < rounds {
            incoming = relay(&outgoing);
        }
    }
    outgoing
}

fn keygen(parties: u32, threshold: u32) -> (Vec<Session>, Vec<Vec<u8>>) {
    let mut sessions: Vec<Session> = (0..parties).map(|_| Session::new(Algorithm::Gg18)).collect();
    let inits = (0..parties).map(|i| keygen_init(parties, threshold, i)).collect();
    let last = run(&mut sessions, inits, 6);
    (sessions, last)
}

#[test]
fn keygen_of_two_parties_ends_on_one_key() {
    let (sessions, last) = keygen(2, 2);
    let keys: Vec<Vec<Vec<u8>>> = last.iter().map(|e| unpack(e).unwrap()).collect();
    assert_eq!(keys[0].len(), 1);
    assert_eq!(keys[0][0].len(), 33);
    assert_eq!(keys[0], keys[1]);
    for session in sessions {
        assert!(session.finished());
        assert_eq!(session.round(), 6);
        assert!(session.finish().is_ok());
    }
}

#[test]
fn keygen_of_three_then_signing_of_two() {
    let (sessions, last) = keygen(3, 2);
    for envelope in &last {
        assert_eq!(unpack(envelope).unwrap(), vec![public_key(), public_key()]);
    }
    let groups: Vec<Vec<u8>> = sessions.into_iter().map(|s| s.finish().unwrap()).collect();
    let mut signers = vec![
        Session::with_group(Algorithm::Gg18, &groups[0]).unwrap(),
        Session::with_group(Algorithm::Gg18, &groups[2]).unwrap(),
    ];
    let inits = vec![sign_init(&[0, 2], 0, &HELLO_SHA256), sign_init(&[0, 2], 1, &HELLO_SHA256)];
    let last = run(&mut signers, inits, 10);
    for envelope in &last {
        assert_eq!(envelope, &Vec::<u8>::new());
    }
    for signer in signers {
        assert!(signer.finished());
        let sig = signer.finish().unwrap();
        assert_eq!(sig.len(), 65);
        assert_eq!(sig, signature());
    }
}

#[test]
fn a_session_resumes_mid_keygen() {
    let mut straight = vec![Session::new(Algorithm::Gg18), Session::new(Algorithm::Gg18)];
    let mut resumed = vec![Session::new(Algorithm::Gg18), Session::new(Algorithm::Gg18)];
    let inits: Vec<Vec<u8>> = (0..2).map(|i| keygen_init(2, 2, i)).collect();
    let mut incoming = inits;
    for _ in 0..3 {
        let out: Vec<Vec<u8>> =
            straight.iter_mut().zip(&incoming).map(|(s, d)| step(s, d).unwrap()).collect();
        let same: Vec<Vec<u8>> =
            resumed.iter_mut().zip(&incoming).map(|(s, d)| step(s, d).unwrap()).collect();
        assert_eq!(out, same);
        incoming = relay(&out);
    }
    assert_eq!(resumed[0].round(), 3);
    let blob = resumed.remove(0).serialize();
    let mut back = Session::deserialize(&blob).unwrap();
    assert_eq!(back.protocol(), ProtocolType::Keygen);
    assert_eq!(back.round(), 3);
    assert_eq!(back.serialize(), blob);
    let expected = step(&mut straight[0], &incoming[0]).unwrap();
    let got = step(&mut back, &incoming[0]).unwrap();
    assert_eq!(got, expected);
    assert_eq!(back.round(), 4);
    assert_eq!(back.serialize(), straight[0].serialize());
}

#[test]
fn a_malformed_frame_leaves_round_one() {
    let mut session = Session::new(Algorithm::Gg18);
    step(&mut session, &keygen_init(2, 2, 0)).unwrap();
    assert_eq!(session.round(), 1);
    let before = session.serialize();
    let blob = [0xffu8; 16];
    assert_eq!(session.request(&blob).err(), Some(ProtocolError::MalformedFrame));
    assert_eq!(step(&mut session, &blob), Err(ProtocolError::MalformedFrame));
    assert_eq!(session.round(), 1);
    assert_eq!(session.serialize(), before);
    assert!(!session.finished());
    assert_eq!(session.finish(), Err(ProtocolError::ProtocolNotFinished));
}

#[test]
fn no_artifact_before_the_last_round() {
    assert_eq!(Session::new(Algorithm::Gg18).finish(), Err(ProtocolError::ProtocolNotFinished));
    assert_eq!(KeygenContext::new().finish(), Err(ProtocolError::ProtocolNotFinished));
    let group = Gg18Group { data: b"group".to_vec() }.to_bytes();
    assert_eq!(
        Session::with_group(Algorithm::Gg18, &group).unwrap().finish(),
        Err(ProtocolError::ProtocolNotFinished)
    );
    assert_eq!(
        SignContext::new(&group).unwrap().finish(),
        Err(ProtocolError::ProtocolNotFinished)
    );
}

fn finished_signing() -> Session {
    let group = Gg18Group { data: b"group".to_vec() }.to_bytes();
    let mut signers: Vec<Session> =
        (0..2).map(|_| Session::with_group(Algorithm::Gg18, &group).unwrap()).collect();
    let inits = vec![sign_init(&[1, 2], 0, &HELLO_SHA256), sign_init(&[1, 2], 1, &HELLO_SHA256)];
    run(&mut signers, inits, 10);
    signers.remove(0)
}

#[test]
fn no_round_after_the_last() {
    let mut session = finished_signing();
    let before = session.serialize();
    for data in [pack(&vec![b"late".to_vec()]), vec![], vec![0xff; 16]] {
        assert_eq!(session.request(&data).err(), Some(ProtocolError::ProtocolFinished));
        let outcome = Ok(RoundReply {
            output: RoundOutputType::Inter(vec![1]),
            messages: Outgoing::Broadcast(vec![2]),
        });
        assert_eq!(session.advance(&data, outcome), Err(ProtocolError::ProtocolFinished));
        assert_eq!(
            session.advance(&data, Err(RoundError::CryptoFailure)),
            Err(ProtocolError::ProtocolFinished)
        );
    }
    assert_eq!(session.serialize(), before);
    assert_eq!(session.finish(), Ok(signature()));
}

#[test]
fn too_few_signers_never_finish() {
    let group = Gg18Group { data: b"group".to_vec() }.to_bytes();
    let mut alone = Session::with_group(Algorithm::Gg18, &group).unwrap();
    let init = sign_init(&[1], 0, &HELLO_SHA256);
    for _ in 0..3 {
        assert_eq!(step(&mut alone, &init), Err(ProtocolError::CryptoFailure));
        assert_eq!(alone.round(), 0);
        assert!(!alone.finished());
    }
    // One of two signers, left without the other's messages.
    let mut waiting = Session::with_group(Algorithm::Gg18, &group).unwrap();
    step(&mut waiting, &sign_init(&[0, 1], 0, &HELLO_SHA256)).unwrap();
    assert_eq!(step(&mut waiting, &pack(&vec![])), Err(ProtocolError::CryptoFailure));
    assert_eq!(waiting.round(), 1);
    assert_eq!(waiting.finish(), Err(ProtocolError::ProtocolNotFinished));
}

#[test]
fn keygen_after_done_is_finished() {
    let (mut sessions, _) = keygen(2, 1);
    let data = pack(&vec![public_key()]);
    assert_eq!(step(&mut sessions[0], &data), Err(ProtocolError::ProtocolFinished));
    assert_eq!(sessions[0].round(), 6);
}

#[test]
fn keygen_finish_seals_the_group() {
    let (mut sessions, _) = keygen(2, 2);
    let blob = sessions.remove(0).finish().unwrap();
    assert_eq!(blob, seal(KIND_GROUP, 0, b"group"));
    assert_eq!(blob, vec![MAGIC, VERSION, KIND_GROUP, 0, 5, b'g', b'r', b'o', b'u', b'p']);
    assert_eq!(Gg18Group::from_bytes(&blob).unwrap().data, b"group".to_vec());
}

#[test]
fn rounds_go_one_by_one() {
    let mut sessions = vec![Session::new(Algorithm::Gg18), Session::new(Algorithm::Gg18)];
    let mut incoming: Vec<Vec<u8>> = (0..2).map(|i| keygen_init(2, 1, i)).collect();
    for round in 1..=6u8 {
        for session in &sessions {
            assert_eq!(session.round(), round - 1);
            assert_eq!(session.finished(), false);
        }
        let out: Vec<Vec<u8>> =
            sessions.iter_mut().zip(&incoming).map(|(s, d)| step(s, d).unwrap()).collect();
        for session in &sessions {
            assert_eq!(session.round(), round);
        }
        incoming = relay(&out);
    }
    assert!(sessions.iter().all(|s| s.finished()));
}

#[test]
fn a_failed_round_leaves_the_session() {
    let mut session = Session::new(Algorithm::Gg18);
    step(&mut session, &keygen_init(3, 2, 1)).unwrap();
    let before = session.serialize();
    let data = pack(&vec![b"x".to_vec(), b"y".to_vec()]);
    // The round function fails.
    for (failure, error) in [
        (RoundError::MalformedPeerMessage, ProtocolError::MalformedPeerMessage),
        (RoundError::CryptoFailure, ProtocolError::CryptoFailure),
    ] {
        assert_eq!(session.advance(&data, Err(failure)), Err(error));
        assert_eq!(session.serialize(), before);
    }
    // The stand-in engine does not know these messages.
    assert_eq!(step(&mut session, &data), Err(ProtocolError::MalformedPeerMessage));
    // Nor so many.
    assert_eq!(step(&mut session, &pack(&vec![])), Err(ProtocolError::CryptoFailure));
    assert_eq!(session.serialize(), before);
    assert_eq!(session.round(), 1);
}

#[test]
fn keygen_init_is_read_before_round_one() {
    let mut session = Session::new(Algorithm::Gg18);
    assert_eq!(step(&mut session, &[0x0a, 1, 3]), Err(ProtocolError::MalformedInit));
    assert_eq!(step(&mut session, &[0xff; 16]), Err(ProtocolError::MalformedInit));
    // No parties: there is no envelope to make.
    assert_eq!(session.request(&[]).err(), Some(ProtocolError::CryptoFailure));
    assert_eq!(step(&mut session, &keygen_init(0, 0, 0)), Err(ProtocolError::CryptoFailure));
    // The round function refuses a threshold above the parties.
    assert_eq!(step(&mut session, &keygen_init(2, 3, 0)), Err(ProtocolError::CryptoFailure));
    assert_eq!(session.round(), 0);
    let req = session.request(&keygen_init(3, 2, 1)).unwrap();
    assert_eq!(req.protocol, ProtocolType::Keygen);
    assert_eq!(req.round, 1);
    assert_eq!(req.context, Vec::<u8>::new());
    match req.input {
        RoundInput::KeygenInit { parties, threshold, index } => {
            assert_eq!((parties, threshold, index), (3, 2, 1));
        },
        _ => panic!("not the opening of a key generation"),
    }
}

#[test]
fn keygen_round_one_serves_all_but_one() {
    for parties in [1u32, 2, 3, 7] {
        let mut ctx = KeygenContext::new();
        let outcome = Ok(RoundReply {
            output: RoundOutputType::Inter(b"c1".to_vec()),
            messages: Outgoing::Broadcast(b"hi".to_vec()),
        });
        let envelope = ctx.advance(&keygen_init(parties, 1, 0), outcome).unwrap();
        assert_eq!(unpack(&envelope).unwrap(), vec![b"hi".to_vec(); parties as usize - 1]);
        assert_eq!(ctx.carried(), b"c1".to_vec());
    }
}

#[test]
fn session_parameters_keep_their_low_16_bits() {
    let session = Session::new(Algorithm::Gg18);
    let req = session.request(&keygen_init(0x1_0003, 0x2_0002, 0x3_0001)).unwrap();
    match req.input {
        RoundInput::KeygenInit { parties, threshold, index } => {
            assert_eq!((parties, threshold, index), (3, 2, 1));
        },
        _ => panic!("not the opening of a key generation"),
    }
    let group = Gg18Group { data: b"group".to_vec() }.to_bytes();
    let signer = Session::with_group(Algorithm::Gg18, &group).unwrap();
    let req = signer.request(&sign_init(&[0x1_0000, 2, 0xffff], 70_000, &[1, 2])).unwrap();
    assert_eq!(req.protocol, ProtocolType::Sign);
    assert_eq!(req.round, 1);
    assert_eq!(req.context, b"group".to_vec());
    match req.input {
        RoundInput::SignInit { indices, position, hash } => {
            assert_eq!(indices, vec![0, 2, 0xffff]);
            assert_eq!(position, 70_000);
            assert_eq!(hash, vec![1, 2]);
        },
        _ => panic!("not the opening of a signing"),
    }
}

#[test]
fn sign_init_is_read_before_round_one() {
    let group = Gg18Group { data: b"group".to_vec() }.to_bytes();
    let mut session = Session::with_group(Algorithm::Gg18, &group).unwrap();
    assert_eq!(step(&mut session, &[0x18, 1]), Err(ProtocolError::MalformedInit));
    // Nobody signs.
    assert_eq!(step(&mut session, &sign_init(&[], 0, &HELLO_SHA256)), Err(ProtocolError::CryptoFailure));
    assert_eq!(session.round(), 0);
    let envelope = step(&mut session, &sign_init(&[0, 1, 2], 1, &HELLO_SHA256)).unwrap();
    let expected = payload(ProtocolType::Sign, 1, 1, None);
    assert_eq!(unpack(&envelope).unwrap(), vec![expected.clone(), expected]);
    assert_eq!(session.round(), 1);
}

#[test]
fn later_rounds_serve_as_many_as_came_in() {
    let mut ctx = KeygenContext::R1(b"c1".to_vec());
    let data = pack(&vec![vec![1], vec![2], vec![3]]);
    let req = ctx.request(&data).unwrap();
    assert_eq!(req.round, 2);
    assert_eq!(req.context, b"c1".to_vec());
    match req.input {
        RoundInput::Messages(msgs) => assert_eq!(msgs, vec![vec![1], vec![2], vec![3]]),
        _ => panic!("not the messages of a round"),
    }
    let outcome = Ok(RoundReply {
        output: RoundOutputType::Inter(b"c2".to_vec()),
        messages: Outgoing::Broadcast(b"out".to_vec()),
    });
    let envelope = ctx.advance(&data, outcome).unwrap();
    assert_eq!(unpack(&envelope).unwrap(), vec![b"out".to_vec(); 3]);
    assert_eq!(ctx.round(), 2);
    assert_eq!(ctx.carried(), b"c2".to_vec());
}

#[test]
fn a_broadcast_round_sends_equal_payloads() {
    let (_, last) = keygen(4, 2);
    for envelope in last {
        let msgs = unpack(&envelope).unwrap();
        assert_eq!(msgs.len(), 3);
        assert!(msgs.iter().all(|m| *m == msgs[0]));
    }
    assert_eq!(broadcast(&vec![1, 2], 3), vec![vec![1, 2], vec![1, 2], vec![1, 2]]);
    assert_eq!(broadcast(&vec![1, 2], 0), Vec::<Vec<u8>>::new());
    assert_eq!(broadcast(&vec![], 2), vec![Vec::<u8>::new(), vec![]]);
}

#[test]
fn a_unicast_round_keeps_the_peers_order() {
    let mut ctx = KeygenContext::R2(b"c2".to_vec());
    let data = pack(&vec![vec![1], vec![2]]);
    let outcome = Ok(RoundReply {
        output: RoundOutputType::Inter(b"c3".to_vec()),
        messages: Outgoing::Unicast(vec![b"for-a".to_vec(), b"for-b".to_vec()]),
    });
    let envelope = ctx.advance(&data, outcome).unwrap();
    assert_eq!(envelope, pack(&vec![b"for-a".to_vec(), b"for-b".to_vec()]));
    assert_eq!(unpack(&envelope).unwrap(), vec![b"for-a".to_vec(), b"for-b".to_vec()]);
    assert_eq!(ctx.round(), 3);
}

#[test]
fn unicast_serializes_in_order() {
    let values = vec![3u32, 1, 2];
    let out: Result<Vec<Vec<u8>>, ()> = unicast(&values, |v: &u32| Ok(vec![*v as u8; *v as usize]));
    assert_eq!(out, Ok(vec![vec![3, 3, 3], vec![1], vec![2, 2]]));
    let out = unicast(&values, |v: &u32| if *v < 3 { Err(*v) } else { Ok(vec![]) });
    assert_eq!(out, Err(1));
    let none: Vec<u32> = vec![];
    let out: Result<Vec<Vec<u8>>, ()> = unicast(&none, |_: &u32| Err(()));
    assert_eq!(out, Ok(vec![]));
}

#[test]
fn a_reply_must_fit_its_round() {
    let inter = || RoundOutputType::Inter(b"c".to_vec());
    let last = || RoundOutputType::Final(b"a".to_vec());
    let reply = |output, messages| Ok(RoundReply { output, messages });
    // A payload for each of three peers where two are served.
    let three = Outgoing::Unicast(vec![vec![1], vec![2], vec![3]]);
    assert_eq!(deliver(reply(inter(), three), false, Fanout::Unicast, 2).err(), Some(ProtocolError::CryptoFailure));
    // A unicast where a broadcast is due, and the other way round.
    let two = Outgoing::Unicast(vec![vec![1], vec![2]]);
    assert_eq!(deliver(reply(inter(), two), false, Fanout::Broadcast, 2).err(), Some(ProtocolError::CryptoFailure));
    let one = Outgoing::Broadcast(vec![1]);
    assert_eq!(deliver(reply(inter(), one), false, Fanout::Unicast, 2).err(), Some(ProtocolError::CryptoFailure));
    // An artifact before the last round, and none in it.
    let one = Outgoing::Broadcast(vec![1]);
    assert_eq!(deliver(reply(last(), one), false, Fanout::Broadcast, 2).err(), Some(ProtocolError::CryptoFailure));
    let one = Outgoing::Broadcast(vec![1]);
    assert_eq!(deliver(reply(inter(), one), true, Fanout::Broadcast, 2).err(), Some(ProtocolError::CryptoFailure));
    // Messages where the session is over.
    let one = Outgoing::Broadcast(vec![1]);
    assert_eq!(deliver(reply(last(), one), true, Fanout::Silent, 2).err(), Some(ProtocolError::CryptoFailure));
    // What fits.
    let one = Outgoing::Broadcast(vec![1]);
    let out = deliver(reply(last(), one), true, Fanout::Broadcast, 2).ok().unwrap();
    assert_eq!(out.data_out, pack(&vec![vec![1], vec![1]]));
    assert!(matches!(out.output, RoundOutputType::Final(a) if a == b"a".to_vec()));
    let out = deliver(reply(last(), Outgoing::Silent), true, Fanout::Silent, 2).ok().unwrap();
    assert_eq!(out.data_out, Vec::<u8>::new());
    let failed = deliver(Err(RoundError::MalformedPeerMessage), false, Fanout::Broadcast, 1);
    assert_eq!(failed.err(), Some(ProtocolError::MalformedPeerMessage));
    assert_eq!(RoundError::CryptoFailure.surface(), ProtocolError::CryptoFailure);
}

#[test]
fn sealed_sessions_have_this_layout() {
    assert_eq!(Session::new(Algorithm::Gg18).serialize(), vec![MAGIC, VERSION, KIND_KEYGEN, 0, 0]);
    assert_eq!(
        Session::Keygen(KeygenContext::R3(vec![7, 8])).serialize(),
        vec![0x4d, 1, 0, 3, 2, 7, 8]
    );
    assert_eq!(
        Session::Sign(SignContext::Done(vec![9; 200])).serialize()[..6],
        [0x4d, 1, 1, 10, 0xc8, 0x01]
    );
    assert_eq!(seal(KIND_SIGN, 4, &[1, 2, 3]), vec![0x4d, 1, 1, 4, 3, 1, 2, 3]);
    assert_eq!(unseal(&[0x4d, 1, 1, 4, 3, 1, 2, 3]), Some((1, 4, vec![1, 2, 3])));
}

#[test]
fn every_state_survives_sealing() {
    let mut states = vec![Session::new(Algorithm::Gg18)];
    for round in 1..=6 {
        states.push(Session::Keygen(KeygenContext::restore(round, vec![round; 40]).unwrap()));
    }
    for round in 0..=10 {
        states.push(Session::Sign(SignContext::restore(round, vec![round; 300]).unwrap()));
    }
    states.push(Session::Sign(SignContext::R4(vec![])));
    for state in states {
        let blob = state.serialize();
        let back = Session::deserialize(&blob).unwrap();
        assert_eq!(back.protocol(), state.protocol());
        assert_eq!(back.round(), state.round());
        assert_eq!(back.serialize(), blob);
    }
}

#[test]
fn corrupt_state_does_not_open() {
    let good = Session::Keygen(KeygenContext::R2(vec![1, 2, 3])).serialize();
    assert!(Session::deserialize(&good).is_ok());
    let corrupt = |blob: &[u8]| {
        assert_eq!(Session::deserialize(blob).err(), Some(ProtocolError::CorruptState));
    };
    corrupt(&[]);
    corrupt(&[MAGIC, VERSION, KIND_KEYGEN]);
    corrupt(&[MAGIC, VERSION, KIND_KEYGEN, 0]);
    // Cut short, and grown.
    corrupt(&good[..good.len() - 1]);
    let mut grown = good.clone();
    grown.push(0);
    corrupt(&grown);
    // Another magic byte, another version.
    corrupt(&[0x4e, 1, 0, 2, 3, 1, 2, 3]);
    corrupt(&[0x4d, 2, 0, 2, 3, 1, 2, 3]);
    // A group is no session, and there is no fourth kind.
    corrupt(&seal(KIND_GROUP, 0, b"group"));
    corrupt(&seal(3, 0, b""));
    // Rounds that the protocol does not have.
    corrupt(&seal(KIND_KEYGEN, 7, b"x"));
    corrupt(&seal(KIND_SIGN, 11, b"x"));
    // A key generation that holds something before its first round.
    corrupt(&seal(KIND_KEYGEN, 0, b"x"));
    assert!(KeygenContext::restore(0, vec![1]).is_none());
    assert!(KeygenContext::restore(7, vec![]).is_none());
    assert!(SignContext::restore(11, vec![]).is_none());
}

#[test]
fn corrupt_group_does_not_open() {
    let good = Gg18Group { data: vec![1, 2, 3] }.to_bytes();
    assert_eq!(Gg18Group::from_bytes(&good).unwrap().data, vec![1, 2, 3]);
    let signing = Gg18Group { data: vec![1, 2, 3] }.sign();
    assert_eq!(signing.round(), 0);
    assert_eq!(signing.carried(), vec![1, 2, 3]);
    let corrupt = |blob: &[u8]| {
        assert_eq!(Gg18Group::from_bytes(blob).err(), Some(ProtocolError::CorruptGroup));
        assert_eq!(SignContext::new(blob).err(), Some(ProtocolError::CorruptGroup));
        assert_eq!(
            Session::with_group(Algorithm::Gg18, blob).err(),
            Some(ProtocolError::CorruptGroup)
        );
    };
    corrupt(&[]);
    corrupt(b"{\"not\": \"sealed\"}");
    corrupt(&good[..good.len() - 1]);
    corrupt(&seal(KIND_KEYGEN, 0, &[]));
    corrupt(&seal(KIND_GROUP, 1, &[1]));
}

#[test]
fn the_wrapper_keeps_payload_or_error() {
    let mut wrapper = ProtoWrapper::new(Session::new(Algorithm::Gg18));
    assert_eq!(wrapper.res_buffer(), None);
    assert_eq!(wrapper.error(), "");
    // Too early for the artifact.
    wrapper.output();
    assert_eq!(wrapper.res_buffer(), None);
    assert_eq!(wrapper.error(), "protocol not finished");
    assert!(wrapper.proto.is_some());
    // A round that succeeds.
    let data = keygen_init(2, 2, 0);
    let outcome = engine(&wrapper.request(&data).unwrap());
    wrapper.update(&data, outcome);
    assert_eq!(wrapper.error(), "");
    let expected = pack(&vec![payload(ProtocolType::Keygen, 1, 0, None)]);
    assert_eq!(wrapper.res_buffer(), Some(&expected));
    // A round that fails: no payload is left.
    wrapper.update(&[0xff; 16], Err(RoundError::CryptoFailure));
    assert_eq!(wrapper.res_buffer(), None);
    assert_eq!(wrapper.error(), "malformed frame");
    wrapper.set_res(Ok(vec![1]));
    assert_eq!((wrapper.res_buffer(), wrapper.error()), (Some(&vec![1]), ""));
    wrapper.set_res(Err(ProtocolError::CorruptGroup));
    assert_eq!((wrapper.res_buffer(), wrapper.error()), (None, "corrupt group"));
}

#[test]
fn the_wrapper_hands_out_the_artifact_once() {
    let mut wrapper = ProtoWrapper::new(finished_signing());
    wrapper.output();
    assert_eq!(wrapper.res_buffer(), Some(&signature()));
    assert_eq!(wrapper.error(), "");
    assert!(wrapper.proto.is_none());
    wrapper.output();
    assert_eq!((wrapper.res_buffer(), wrapper.error()), (None, "protocol finished"));
    assert_eq!(wrapper.request(&[]).err(), Some(ProtocolError::ProtocolFinished));
    wrapper.update(&[], Err(RoundError::CryptoFailure));
    assert_eq!((wrapper.res_buffer(), wrapper.error()), (None, "protocol finished"));
}

#[test]
fn every_error_has_its_words() {
    let words: Vec<String> = [
        ProtocolError::MalformedFrame,
        ProtocolError::MalformedInit,
        ProtocolError::MalformedPeerMessage,
        ProtocolError::CryptoFailure,
        ProtocolError::ProtocolFinished,
        ProtocolError::ProtocolNotFinished,
        ProtocolError::CorruptState,
        ProtocolError::CorruptGroup,
    ]
    .iter()
    .map(|e| e.message())
    .collect();
    assert_eq!(
        words,
        vec![
            "malformed frame",
            "malformed init message",
            "malformed peer message",
            "round function failed",
            "protocol finished",
            "protocol not finished",
            "corrupt state",
            "corrupt group",
        ]
    );
}
