//! The session of one connection: the key agreement, the password check
//! inside the agreed channel, and the negotiation of a room. A session reads
//! whole messages from its connection's received bytes and leaves its
//! replies, framed, among the bytes to send.

use crate::comm::{bytes_eq, fits_frame, frame, parse, Comm, CommError, Parsed};
use crate::crypt::{
    decrypt, derived_key, encrypt, is_envelope, opened, CryptError, KEY_LEN, MAX_PLAINTEXT_LEN,
    SALT_LEN,
};
use crate::pake::{
    finish, start_symmetric, KeyAgreement, PakeError, SECRET_LEN, SHARE_LEN, SYMMETRIC_SIDE,
};
use crate::tcp::rooms::{abandoned, join_answer, joined, roomInfo, Join, RoomMap};
use vstd::prelude::*;
use vstd::slice::slice_to_vec;
use vstd::string::*;
use vstd::utf8::{encode_utf8, valid_utf8};

verus! {

/// The room key that a liveness probe is answered with.
pub const PING_ROOM: &'static str = "pinglkasjdlfjsaldjf";

/// Where a session stands.
#[derive(Debug, Clone, Copy, PartialEq, Eq, Structural)]
pub enum SessionState {
    /// The peer's key-agreement share is awaited.
    AwaitingKeyAgreement,
    /// The salt of the envelope key is awaited.
    AwaitingSalt,
    /// The sealed relay password is awaited.
    AwaitingPassword,
    /// The sealed room key is awaited.
    AwaitingRoomKey,
    /// The session made a room and waits in it for a partner.
    RoomCreated,
    /// The session took the second place of a room.
    RoomMatched,
    /// The session failed or was turned away.
    Rejected,
    /// The session was a liveness probe, and was answered.
    Pinged,
}

/// Why a session ended without a room.
#[derive(Debug, Clone, Copy, PartialEq, Eq, Structural)]
pub enum RelayError {
    /// A message could not be read or framed.
    Comm(CommError),
    /// A message could not be sealed or opened.
    Crypt(CryptError),
    /// The key agreement failed.
    Pake(PakeError),
    /// An opened message is not UTF-8.
    NotUtf8,
    /// The peer sent another password than the relay's.
    BadPassword,
    /// The room asked for has its two peers.
    RoomFull,
    /// The session had ended before.
    Ended,
}

/// What a step of the handshake came to.
#[derive(Debug, PartialEq, Eq)]
pub enum Progress {
    /// No whole message has arrived yet: nothing was done.
    Waiting,
    /// A message was taken in, and the handshake goes on.
    Advanced,
    /// The handshake is over, in the room `room`; for a liveness probe that
    /// is `PING_ROOM`.
    Done { room: String },
}

/// `String::from_utf8`: the string whose UTF-8 encoding is `bytes`, where
/// `bytes` is one.
#[verifier::external_body]
fn string_from_utf8(bytes: Vec<u8>) -> (text: Option<String>)
    ensures
        text is Some <==> valid_utf8(bytes@),
        text matches Some(s) ==> encode_utf8(s@) == bytes@,
{
    String::from_utf8(bytes).ok()
}

/// The acknowledgment of a room request.
pub open spec fn ok_message() -> Seq<u8> {
    encode_utf8("ok"@)
}

/// What a third peer is told.
pub open spec fn room_full_message() -> Seq<u8> {
    encode_utf8("room full"@)
}

/// What a peer with the wrong password is told.
pub open spec fn bad_password_message() -> Seq<u8> {
    encode_utf8("bad password"@)
}

/// What a liveness probe sends.
pub open spec fn ping_message() -> Seq<u8> {
    encode_utf8("ping"@)
}

/// What a liveness probe is answered.
pub open spec fn pong_message() -> Seq<u8> {
    encode_utf8("pong"@)
}

/// What a peer with the right password is told: the banner, or `ok` where
/// there is none, three bars, and the peer's own address as the relay sees it.
pub open spec fn banner_message(banner: Seq<char>, peer: Seq<char>) -> Seq<u8> {
    encode_utf8(
        if banner.len() == 0 {
            "ok"@
        } else {
            banner
        },
    ) + encode_utf8("|||"@) + encode_utf8(peer)
}

/// The fixed messages are short.
pub proof fn lemma_message_lengths()
    ensures
        ok_message().len() == 2,
        room_full_message().len() == 9,
        bad_password_message().len() == 12,
        ping_message().len() == 4,
        pong_message().len() == 4,
{
    reveal_strlit("ok");
    reveal_strlit("room full");
    reveal_strlit("bad password");
    reveal_strlit("ping");
    reveal_strlit("pong");
    is_ascii_spec_bytes("ok");
    is_ascii_spec_bytes("room full");
    is_ascii_spec_bytes("bad password");
    is_ascii_spec_bytes("ping");
    is_ascii_spec_bytes("pong");
}

/// What can be seen of a session.
pub struct SessionView {
    /// The number by which the caller knows the connection.
    pub conn: u64,
    /// Where the session stands.
    pub state: SessionState,
    /// The peer's address, as text.
    pub peer: Seq<char>,
    /// The bytes received and not yet read as messages.
    pub buffered: Seq<u8>,
    /// The bytes framed and not yet taken by the transport.
    pub pending: Seq<u8>,
    /// The relay's key-agreement share.
    pub share: Seq<u8>,
    /// The secret that the key agreement gave.
    pub strong_key: Seq<u8>,
    /// The envelope key.
    pub key: Seq<u8>,
    /// The key of the room asked for.
    pub room: Seq<char>,
    /// The peer that waited in the room, for a session that was matched.
    pub partner: Option<u64>,
}

/// The error that keeps a reply of `len` bytes of plaintext from being sent,
/// if there is one: the cipher's limit comes first, then the frame's.
pub open spec fn reply_error(len: nat) -> Option<RelayError> {
    if len > MAX_PLAINTEXT_LEN {
        Some(RelayError::Crypt(CryptError::Seal))
    } else if !fits_frame(len + 28) {
        Some(RelayError::Comm(CommError::TooLong))
    } else {
        None
    }
}

/// Whether `after` is `before` and one more frame, which holds `plaintext`
/// sealed under `key`.
pub open spec fn sealed_onto(
    before: Seq<u8>,
    after: Seq<u8>,
    key: Seq<u8>,
    plaintext: Seq<u8>,
) -> bool {
    exists|envelope: Seq<u8>| #[trigger]
        is_envelope(envelope, key, plaintext) && after == before + frame(envelope)
}

/// Whether `r` is the failure `e`.
pub open spec fn failed(r: Result<Progress, RelayError>, e: RelayError) -> bool {
    r matches Err(x) && x == e
}

/// Whether `r` says that the handshake goes on.
pub open spec fn advanced(r: Result<Progress, RelayError>) -> bool {
    r matches Ok(Progress::Advanced)
}

/// Whether `r` says that the handshake is over in the room `room`.
pub open spec fn done(r: Result<Progress, RelayError>, room: Seq<char>) -> bool {
    r matches Ok(Progress::Done { room: name }) && name@ == room
}

/// The session `before`, turned away: only its state is changed.
pub open spec fn rejected(before: SessionView) -> SessionView {
    SessionView { state: SessionState::Rejected, ..before }
}

/// What a session that awaits the peer's share makes of the outcome of the
/// key agreement: with the secret it answers with the relay's own share and
/// goes on to await the salt; a failure ends it.
pub open spec fn key_agreed_step(
    before: SessionView,
    after: SessionView,
    outcome: Result<Seq<u8>, PakeError>,
    r: Result<Progress, RelayError>,
) -> bool {
    match outcome {
        Ok(secret) => {
            &&& after == SessionView {
                state: SessionState::AwaitingSalt,
                pending: before.pending + frame(before.share),
                strong_key: secret,
                ..before
            }
            &&& advanced(r)
        },
        Err(e) => after == rejected(before) && failed(r, RelayError::Pake(e)),
    }
}

/// The step of a session that awaits the peer's share, on the message
/// `payload`. A probe is answered and ends the session. A share is refused
/// by its length, then by its side byte, and may be refused for its group
/// element; one that is accepted gives the secret and is answered with the
/// relay's own share.
pub open spec fn key_agreement_step(
    before: SessionView,
    after: SessionView,
    payload: Seq<u8>,
    r: Result<Progress, RelayError>,
) -> bool {
    if payload == ping_message() {
        &&& after == SessionView {
            state: SessionState::Pinged,
            pending: before.pending + frame(pong_message()),
            ..before
        }
        &&& done(r, PING_ROOM@)
    } else if payload.len() != SHARE_LEN {
        key_agreed_step(before, after, Err(PakeError::WrongLength), r)
    } else if payload[0] != SYMMETRIC_SIDE {
        key_agreed_step(before, after, Err(PakeError::BadSide), r)
    } else {
        ||| key_agreed_step(before, after, Err(PakeError::CorruptMessage), r)
        ||| after.strong_key.len() == SECRET_LEN && key_agreed_step(
            before,
            after,
            Ok(after.strong_key),
            r,
        )
    }
}

/// The step of a session that awaits the salt, on the message `payload`:
/// the envelope key is derived from the agreed secret and the salt. For an
/// empty salt the relay makes up one of eight bytes, which the peer does not
/// learn. No key is derived from an empty secret: that ends the session.
pub open spec fn salt_step(
    before: SessionView,
    after: SessionView,
    payload: Seq<u8>,
    r: Result<Progress, RelayError>,
) -> bool {
    if before.strong_key.len() == 0 {
        after == rejected(before) && failed(r, RelayError::Crypt(CryptError::EmptyPassphrase))
    } else {
        &&& after == SessionView {
            state: SessionState::AwaitingPassword,
            key: after.key,
            ..before
        }
        &&& after.key.len() == KEY_LEN
        &&& if payload.len() == 0 {
            exists|salt: Seq<u8>|
                salt.len() == SALT_LEN && after.key == #[trigger] derived_key(
                    before.strong_key,
                    salt,
                )
        } else {
            after.key == derived_key(before.strong_key, payload)
        }
        &&& advanced(r)
    }
}

/// The step of a session that awaits the password, on the message
/// `payload`. A message that does not open ends the session with nothing
/// sent. Anything but the relay's password is answered with the sealed
/// words `bad password` and ends the session. The relay's password is
/// answered with the sealed banner message, unless that is too long to seal
/// or to frame.
pub open spec fn password_step(
    before: SessionView,
    after: SessionView,
    payload: Seq<u8>,
    password: Seq<char>,
    banner: Seq<char>,
    r: Result<Progress, RelayError>,
) -> bool {
    match opened(payload, before.key) {
        None => after == rejected(before) && failed(
            r,
            RelayError::Crypt(CryptError::IncorrectPassphrase),
        ),
        Some(given) => if given != encode_utf8(password) {
            &&& after == SessionView { pending: after.pending, ..rejected(before) }
            &&& sealed_onto(before.pending, after.pending, before.key, bad_password_message())
            &&& failed(r, RelayError::BadPassword)
        } else {
            match reply_error(banner_message(banner, before.peer).len()) {
                Some(e) => after == rejected(before) && failed(r, e),
                None => {
                    &&& after == SessionView {
                        state: SessionState::AwaitingRoomKey,
                        pending: after.pending,
                        ..before
                    }
                    &&& sealed_onto(
                        before.pending,
                        after.pending,
                        before.key,
                        banner_message(banner, before.peer),
                    )
                    &&& advanced(r)
                },
            }
        },
    }
}

/// The step of a session that awaits the room key, on the message
/// `payload`. A message that does not open, or opens to something that is
/// no text, ends the session and leaves the registry alone. Otherwise the
/// room is asked for: a session that made the room or took its second place
/// is answered with the sealed word `ok`, one that found it full with the
/// sealed words `room full`.
pub open spec fn room_key_step(
    before: SessionView,
    after: SessionView,
    rooms_before: Map<Seq<char>, roomInfo>,
    rooms_after: Map<Seq<char>, roomInfo>,
    payload: Seq<u8>,
    now: u64,
    r: Result<Progress, RelayError>,
) -> bool {
    match opened(payload, before.key) {
        None => {
            &&& after == rejected(before)
            &&& rooms_after == rooms_before
            &&& failed(r, RelayError::Crypt(CryptError::IncorrectPassphrase))
        },
        Some(given) => if !valid_utf8(given) {
            &&& after == rejected(before)
            &&& rooms_after == rooms_before
            &&& failed(r, RelayError::NotUtf8)
        } else {
            &&& encode_utf8(after.room) == given
            &&& rooms_after == joined(rooms_before, after.room, before.conn, now)
            &&& match join_answer(rooms_before, after.room) {
                Join::Created => {
                    &&& after == SessionView {
                        state: SessionState::RoomCreated,
                        pending: after.pending,
                        room: after.room,
                        ..before
                    }
                    &&& sealed_onto(before.pending, after.pending, before.key, ok_message())
                    &&& done(r, after.room)
                },
                Join::Matched { first } => {
                    &&& after == SessionView {
                        state: SessionState::RoomMatched,
                        pending: after.pending,
                        room: after.room,
                        partner: Some(first),
                        ..before
                    }
                    &&& sealed_onto(before.pending, after.pending, before.key, ok_message())
                    &&& done(r, after.room)
                },
                Join::Full => {
                    &&& after == SessionView {
                        pending: after.pending,
                        room: after.room,
                        ..rejected(before)
                    }
                    &&& sealed_onto(
                        before.pending,
                        after.pending,
                        before.key,
                        room_full_message(),
                    )
                    &&& failed(r, RelayError::RoomFull)
                },
            }
        },
    }
}

/// Whether a session in `state` still reads messages.
pub open spec fn in_handshake(state: SessionState) -> bool {
    state == SessionState::AwaitingKeyAgreement || state == SessionState::AwaitingSalt || state
        == SessionState::AwaitingPassword || state == SessionState::AwaitingRoomKey
}

/// One step of a session. A session whose handshake is over does nothing.
/// One that has no whole message waits. Bytes that are no frame end it.
/// A message is taken from the received bytes and handled as the session's
/// state says; only the step on the room key touches the registry.
pub open spec fn stepped(
    before: SessionView,
    after: SessionView,
    rooms_before: Map<Seq<char>, roomInfo>,
    rooms_after: Map<Seq<char>, roomInfo>,
    password: Seq<char>,
    banner: Seq<char>,
    now: u64,
    r: Result<Progress, RelayError>,
) -> bool {
    if !in_handshake(before.state) {
        after == before && rooms_after == rooms_before && failed(r, RelayError::Ended)
    } else {
        match parse(before.buffered) {
            Parsed::Incomplete => {
                &&& after == before
                &&& rooms_after == rooms_before
                &&& r matches Ok(Progress::Waiting)
            },
            Parsed::BadMagic => {
                &&& after == rejected(before)
                &&& rooms_after == rooms_before
                &&& failed(r, RelayError::Comm(CommError::BadMagic))
            },
            Parsed::Frame { payload, rest } => {
                let taken = SessionView { buffered: rest, ..before };
                match before.state {
                    SessionState::AwaitingKeyAgreement => rooms_after == rooms_before
                        && key_agreement_step(taken, after, payload, r),
                    SessionState::AwaitingSalt => rooms_after == rooms_before && salt_step(
                        taken,
                        after,
                        payload,
                        r,
                    ),
                    SessionState::AwaitingPassword => rooms_after == rooms_before
                        && password_step(taken, after, payload, password, banner, r),
                    _ => room_key_step(taken, after, rooms_before, rooms_after, payload, now, r),
                }
            },
        }
    }
}

/// The session of one connection.
pub struct Session {
    conn: u64,
    comm: Comm,
    state: SessionState,
    agreement: Option<KeyAgreement>,
    share: Vec<u8>,
    strong_key: Vec<u8>,
    key: Vec<u8>,
    room_key: String,
    partner: Option<u64>,
}

impl View for Session {
    type V = SessionView;

    closed spec fn view(&self) -> SessionView {
        SessionView {
            conn: self.conn,
            state: self.state,
            peer: self.comm.peer(),
            buffered: self.comm.buffered(),
            pending: self.comm.pending(),
            share: self.share@,
            strong_key: self.strong_key@,
            key: self.key@,
            room: self.room_key@,
            partner: self.partner,
        }
    }
}

/// What the relay keeps for the state that a session is in: its share while
/// the peer's is awaited, the envelope key while sealed messages are
/// awaited.
pub open spec fn session_wf(view: SessionView) -> bool {
    &&& view.state == SessionState::AwaitingKeyAgreement ==> view.share.len() == SHARE_LEN
    &&& view.state == SessionState::AwaitingPassword || view.state
        == SessionState::AwaitingRoomKey ==> view.key.len() == KEY_LEN
}

impl Session {
    /// The session's invariant.
    pub closed spec fn wf(&self) -> bool {
        &&& session_wf(self@)
        &&& self.state == SessionState::AwaitingKeyAgreement ==> self.agreement is Some
    }

    /// What a well-formed session keeps.
    pub proof fn lemma_wf_view(&self)
        requires
            self.wf(),
        ensures
            session_wf(self@),
    {
    }

    /// The session of the connection `conn`, whose bytes go through `comm`.
    /// It begins the key agreement and awaits the peer's share.
    pub fn new(conn: u64, comm: Comm) -> (session: Session)
        ensures
            session.wf(),
            session@.conn == conn,
            session@.state == SessionState::AwaitingKeyAgreement,
            session@.peer == comm.peer(),
            session@.buffered == comm.buffered(),
            session@.pending == comm.pending(),
            session@.share.len() == SHARE_LEN,
            session@.share[0] == SYMMETRIC_SIDE,
            session@.strong_key == Seq::<u8>::empty(),
            session@.key == Seq::<u8>::empty(),
            session@.room == Seq::<char>::empty(),
            session@.partner is None,
    {
        let mut weak: Vec<u8> = Vec::new();
        weak.push(1u8);
        weak.push(2u8);
        weak.push(3u8);
        let (agreement, share) = start_symmetric(weak.as_slice(), "siec".as_bytes());
        Session {
            conn,
            comm,
            state: SessionState::AwaitingKeyAgreement,
            agreement: Some(agreement),
            share,
            strong_key: Vec::new(),
            key: Vec::new(),
            room_key: String::new(),
            partner: None,
        }
    }

    /// The number by which the caller knows the connection.
    pub fn conn(&self) -> (conn: u64)
        ensures
            conn == self@.conn,
    {
        self.conn
    }

    /// Where the session stands.
    pub fn state(&self) -> (state: SessionState)
        ensures
            state == self@.state,
    {
        self.state
    }

    /// The key of the room asked for.
    pub fn room_key(&self) -> (room: &String)
        ensures
            room@ == self@.room,
    {
        &self.room_key
    }

    /// The peer that waited in the room, for a session that was matched.
    pub fn partner(&self) -> (partner: Option<u64>)
        ensures
            partner == self@.partner,
    {
        self.partner
    }

    /// Seconds to wait for the connection's next bytes.
    pub fn read_timeout(&self) -> (secs: u64)
        ensures
            secs == if self@.buffered.len() < 8 {
                crate::comm::HEADER_READ_TIMEOUT_SECS
            } else {
                crate::comm::PAYLOAD_READ_TIMEOUT_SECS
            },
    {
        self.comm.read_timeout()
    }

    /// Takes in bytes that the transport delivered.
    pub fn feed(&mut self, bytes: &[u8])
        requires
            old(self).wf(),
        ensures
            final(self).wf(),
            final(self)@ == (SessionView {
                buffered: old(self)@.buffered + bytes@,
                ..old(self)@
            }),
    {
        self.comm.feed(bytes);
    }

    /// Hands the framed bytes to the transport and forgets them.
    pub fn take_pending(&mut self) -> (bytes: Vec<u8>)
        requires
            old(self).wf(),
        ensures
            final(self).wf(),
            bytes@ == old(self)@.pending,
            final(self)@ == (SessionView { pending: Seq::<u8>::empty(), ..old(self)@ }),
    {
        self.comm.take_pending()
    }

    /// Seals `plaintext` under the envelope key and frames it for sending.
    fn reply_sealed(&mut self, plaintext: &[u8]) -> (r: Result<(), RelayError>)
        requires
            old(self).key@.len() == KEY_LEN,
        ensures
            final(self)@ == (SessionView { pending: final(self)@.pending, ..old(self)@ }),
            final(self).agreement == old(self).agreement,
            match reply_error(plaintext@.len()) {
                Some(e) => final(self)@.pending == old(self)@.pending && r == Err::<
                    (),
                    RelayError,
                >(e),
                None => r is Ok && sealed_onto(
                    old(self)@.pending,
                    final(self)@.pending,
                    old(self)@.key,
                    plaintext@,
                ),
            },
    {
        let envelope = match encrypt(plaintext, self.key.as_slice()) {
            Ok(envelope) => envelope,
            Err(_) => {
                return Err(RelayError::Crypt(CryptError::Seal));
            },
        };
        match self.comm.send(envelope.as_slice()) {
            Ok(()) => {
                Ok(())
            },
            Err(e) => Err(RelayError::Comm(e)),
        }
    }

    /// The step on the peer's share.
    fn on_share(&mut self, payload: &[u8]) -> (r: Result<Progress, RelayError>)
        requires
            old(self).wf(),
            old(self).state == SessionState::AwaitingKeyAgreement,
        ensures
            final(self).wf(),
            key_agreement_step(old(self)@, final(self)@, payload@, r),
    {
        proof {
            lemma_message_lengths();
        }
        if bytes_eq(payload, "ping".as_bytes()) {
            let _ = self.comm.send("pong".as_bytes());
            self.state = SessionState::Pinged;
            return Ok(Progress::Done { room: PING_ROOM.to_owned() });
        }
        let agreement = self.agreement.take().unwrap();
        let outcome = finish(agreement, payload);
        self.agreed(outcome)
    }

    /// What follows the key agreement, for a session that awaits the share.
    fn agreed(&mut self, outcome: Result<Vec<u8>, PakeError>) -> (r: Result<Progress, RelayError>)
        requires
            old(self).state == SessionState::AwaitingKeyAgreement,
            old(self).share@.len() == SHARE_LEN,
        ensures
            final(self).wf(),
            key_agreed_step(
                old(self)@,
                final(self)@,
                match outcome {
                    Ok(secret) => Ok(secret@),
                    Err(e) => Err(e),
                },
                r,
            ),
    {
        match outcome {
            Ok(secret) => {
                let _ = self.comm.send(self.share.as_slice());
                self.strong_key = secret;
                self.state = SessionState::AwaitingSalt;
                Ok(Progress::Advanced)
            },
            Err(e) => {
                self.state = SessionState::Rejected;
                Err(RelayError::Pake(e))
            },
        }
    }

    /// Takes in what the key agreement came to, for a session that awaits
    /// the peer's share: with the secret the session answers with the
    /// relay's own share and goes on to await the salt; a failure ends it.
    /// A session in any other state is left as it is.
    pub fn key_agreed(&mut self, outcome: Result<Vec<u8>, PakeError>) -> (r: Result<
        Progress,
        RelayError,
    >)
        requires
            old(self).wf(),
        ensures
            final(self).wf(),
            if old(self)@.state == SessionState::AwaitingKeyAgreement {
                key_agreed_step(
                    old(self)@,
                    final(self)@,
                    match outcome {
                        Ok(secret) => Ok(secret@),
                        Err(e) => Err(e),
                    },
                    r,
                )
            } else {
                final(self)@ == old(self)@ && failed(r, RelayError::Ended)
            },
    {
        match self.state {
            SessionState::AwaitingKeyAgreement => self.agreed(outcome),
            _ => Err(RelayError::Ended),
        }
    }

    /// The step on the salt.
    fn on_salt(&mut self, payload: &[u8]) -> (r: Result<Progress, RelayError>)
        requires
            old(self).wf(),
            old(self).state == SessionState::AwaitingSalt,
        ensures
            final(self).wf(),
            salt_step(old(self)@, final(self)@, payload@, r),
    {
        match crate::crypt::new(self.strong_key.as_slice(), payload) {
            Ok((key, salt)) => {
                self.key = key;
                self.state = SessionState::AwaitingPassword;
                Ok(Progress::Advanced)
            },
            Err(e) => {
                self.state = SessionState::Rejected;
                Err(RelayError::Crypt(e))
            },
        }
    }

    /// The step on the sealed password.
    fn on_password(&mut self, payload: &[u8], password: &str, banner: &str) -> (r: Result<
        Progress,
        RelayError,
    >)
        requires
            old(self).wf(),
            old(self).state == SessionState::AwaitingPassword,
        ensures
            final(self).wf(),
            password_step(old(self)@, final(self)@, payload@, password@, banner@, r),
    {
        proof {
            lemma_message_lengths();
        }
        let given = match decrypt(payload, self.key.as_slice()) {
            Ok(given) => given,
            Err(e) => {
                self.state = SessionState::Rejected;
                return Err(RelayError::Crypt(e));
            },
        };
        if !bytes_eq(given.as_slice(), password.as_bytes()) {
            let _ = self.reply_sealed("bad password".as_bytes());
            self.state = SessionState::Rejected;
            return Err(RelayError::BadPassword);
        }
        let shown: &str = if banner.is_empty() {
            "ok"
        } else {
            banner
        };
        let mut message: Vec<u8> = slice_to_vec(shown.as_bytes());
        message.extend_from_slice("|||".as_bytes());
        message.extend_from_slice(self.comm.addr().as_str().as_bytes());
        assert(message@ == banner_message(banner@, self@.peer));
        match self.reply_sealed(message.as_slice()) {
            Ok(()) => {
                self.state = SessionState::AwaitingRoomKey;
                Ok(Progress::Advanced)
            },
            Err(e) => {
                self.state = SessionState::Rejected;
                Err(e)
            },
        }
    }

    /// The step on the sealed room key.
    fn on_room_key(&mut self, payload: &[u8], rooms: &mut RoomMap, now: u64) -> (r: Result<
        Progress,
        RelayError,
    >)
        requires
            old(self).wf(),
            old(rooms).wf(),
            old(self).state == SessionState::AwaitingRoomKey,
        ensures
            final(self).wf(),
            final(rooms).wf(),
            room_key_step(old(self)@, final(self)@, old(rooms)@, final(rooms)@, payload@, now, r),
    {
        proof {
            lemma_message_lengths();
        }
        let given = match decrypt(payload, self.key.as_slice()) {
            Ok(given) => given,
            Err(e) => {
                self.state = SessionState::Rejected;
                return Err(RelayError::Crypt(e));
            },
        };
        let room_key = match string_from_utf8(given) {
            Some(text) => text,
            None => {
                self.state = SessionState::Rejected;
                return Err(RelayError::NotUtf8);
            },
        };
        let answer = rooms.join(&room_key, self.conn, now);
        self.room_key = room_key;
        match answer {
            Join::Created => {
                let _ = self.reply_sealed("ok".as_bytes());
                self.state = SessionState::RoomCreated;
                Ok(Progress::Done { room: self.room_key.clone() })
            },
            Join::Matched { first } => {
                let _ = self.reply_sealed("ok".as_bytes());
                self.partner = Some(first);
                self.state = SessionState::RoomMatched;
                Ok(Progress::Done { room: self.room_key.clone() })
            },
            Join::Full => {
                let _ = self.reply_sealed("room full".as_bytes());
                self.state = SessionState::Rejected;
                Err(RelayError::RoomFull)
            },
        }
    }

    /// One step of the handshake: reads the next message, if a whole one has
    /// arrived, and handles it as the session's state says.
    fn step(
        &mut self,
        password: &str,
        banner: &str,
        rooms: &mut RoomMap,
        now: u64,
    ) -> (r: Result<Progress, RelayError>)
        requires
            old(self).wf(),
            old(rooms).wf(),
        ensures
            final(self).wf(),
            final(rooms).wf(),
            stepped(
                old(self)@,
                final(self)@,
                old(rooms)@,
                final(rooms)@,
                password@,
                banner@,
                now,
                r,
            ),
    {
        match self.state {
            SessionState::AwaitingKeyAgreement
            | SessionState::AwaitingSalt
            | SessionState::AwaitingPassword
            | SessionState::AwaitingRoomKey => {},
            _ => {
                return Err(RelayError::Ended);
            },
        }
        let payload = match self.comm.receive() {
            Ok(payload) => payload,
            Err(CommError::Incomplete) => {
                return Ok(Progress::Waiting);
            },
            Err(e) => {
                self.state = SessionState::Rejected;
                return Err(RelayError::Comm(e));
            },
        };
        match self.state {
            SessionState::AwaitingKeyAgreement => self.on_share(payload.as_slice()),
            SessionState::AwaitingSalt => self.on_salt(payload.as_slice()),
            SessionState::AwaitingPassword => self.on_password(
                payload.as_slice(),
                password,
                banner,
            ),
            _ => self.on_room_key(payload.as_slice(), rooms, now),
        }
    }

    /// Gives up the place that the session holds, when its connection is
    /// lost or its bridge has ended. A matched session takes its room out of
    /// the registry; one that waits in a room takes the room out unless a
    /// partner has come; any other changes nothing. The session has ended.
    pub fn leave(&mut self, rooms: &mut RoomMap)
        requires
            old(self).wf(),
            old(rooms).wf(),
        ensures
            final(self).wf(),
            final(rooms).wf(),
            final(self)@ == rejected(old(self)@),
            final(rooms)@ == match old(self)@.state {
                SessionState::RoomMatched => old(rooms)@.remove(old(self)@.room),
                SessionState::RoomCreated => abandoned(old(rooms)@, old(self)@.room),
                _ => old(rooms)@,
            },
    {
        match self.state {
            SessionState::RoomMatched => {
                rooms.remove(&self.room_key);
            },
            SessionState::RoomCreated => {
                let _ = rooms.remove_waiting(&self.room_key);
            },
            _ => {},
        }
        self.state = SessionState::Rejected;
    }
}

/// One step of the handshake of `session` against the relay's `password`,
/// `banner` and `rooms`, at the time `now`.
pub fn client_communication(
    _port: &str,
    password: &str,
    banner: &str,
    rooms: &mut RoomMap,
    session: &mut Session,
    now: u64,
) -> (r: Result<Progress, RelayError>)
    requires
        old(session).wf(),
        old(rooms).wf(),
    ensures
        final(session).wf(),
        final(rooms).wf(),
        stepped(
            old(session)@,
            final(session)@,
            old(rooms)@,
            final(rooms)@,
            password@,
            banner@,
            now,
            r,
        ),
{
    session.step(password, banner, rooms, now)
}

/// A wrong password opens no room. When a session that awaits the password
/// reads a message that opens to anything but the relay's password, the
/// registry stays as it was, the session has ended, and what it sends is one
/// frame whose payload opens, under the session's key, to the words
/// `bad password`. Whatever the session reads later leaves the registry
/// alone as well.
pub proof fn lemma_wrong_password(
    before: SessionView,
    after: SessionView,
    later: SessionView,
    rooms_before: Map<Seq<char>, roomInfo>,
    rooms_after: Map<Seq<char>, roomInfo>,
    rooms_later: Map<Seq<char>, roomInfo>,
    password: Seq<char>,
    banner: Seq<char>,
    now: u64,
    then: u64,
    r: Result<Progress, RelayError>,
    next: Result<Progress, RelayError>,
    payload: Seq<u8>,
    rest: Seq<u8>,
    given: Seq<u8>,
)
    requires
        before.state == SessionState::AwaitingPassword,
        parse(before.buffered) == (Parsed::Frame { payload, rest }),
        opened(payload, before.key) == Some(given),
        given != encode_utf8(password),
        stepped(before, after, rooms_before, rooms_after, password, banner, now, r),
        stepped(after, later, rooms_after, rooms_later, password, banner, then, next),
    ensures
        rooms_after == rooms_before,
        rooms_later == rooms_before,
        after.state == SessionState::Rejected,
        failed(r, RelayError::BadPassword),
        exists|envelope: Seq<u8>|
            after.pending == before.pending + #[trigger] frame(envelope) && opened(
                envelope,
                before.key,
            ) == Some(bad_password_message()),
{
    let envelope = choose|envelope: Seq<u8>| #[trigger]
        is_envelope(envelope, before.key, bad_password_message()) && after.pending
            == before.pending + frame(envelope);
    crate::crypt::lemma_open_inverts_seal(bad_password_message(), before.key, envelope);
}

} // verus!
