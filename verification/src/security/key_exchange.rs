//! The key agreement: four Diffie-Hellman exchanges, one after the other
//! on the same stream, that give the keys and nonces of both directions.
//!
//! Nothing here tells the peer from anyone else who answers: the exchange
//! is not authenticated.

use vstd::prelude::*;
use super::{context_of, ChaChaKey, ChaChaKeyView, KeyPair};
use rand_core::{OsRng, RngCore};
use x25519_dalek::{PublicKey, StaticSecret};

verus! {

/// Number of exchanges in one key agreement.
pub const EXCHANGES: u8 = 4;

/// The X25519 public key that belongs to a secret of 32 bytes.
pub uninterp spec fn x25519_public(secret: Seq<u8>) -> Seq<u8>;

/// The X25519 secret that the holder of `secret` shares with the holder of
/// the public key `peer`.
pub uninterp spec fn x25519_shared(secret: Seq<u8>, peer: Seq<u8>) -> Seq<u8>;

/// `OsRng::try_fill_bytes` of the crate `rand_core`: 32 bytes from the
/// operating system's random number generator, or nothing where it fails.
/// Nothing is claimed of the bytes.
#[verifier::external_body]
fn random_secret() -> (secret: Option<[u8; 32]>) {
    let mut bytes = [0u8; 32];
    OsRng.try_fill_bytes(&mut bytes).ok()?;
    Some(bytes)
}

/// `PublicKey::from(&StaticSecret)` of the crate `x25519_dalek`: the public
/// key of the secret that `StaticSecret::from` makes of the 32 bytes.
#[verifier::external_body]
fn derive_public(secret: &[u8; 32]) -> (public: [u8; 32])
    ensures
        public@ == x25519_public(secret@),
{
    PublicKey::from(&StaticSecret::from(*secret)).to_bytes()
}

/// `StaticSecret::diffie_hellman` of the crate `x25519_dalek`: the secret
/// shared between the secret that `StaticSecret::from` makes of the first
/// 32 bytes and the public key that `PublicKey::from` makes of the second.
#[verifier::external_body]
fn diffie_hellman(secret: &[u8; 32], peer: &[u8; 32]) -> (shared: [u8; 32])
    ensures
        shared@ == x25519_shared(secret@, peer@),
{
    StaticSecret::from(*secret).diffie_hellman(&PublicKey::from(*peer)).to_bytes()
}

/// One exchange, once the peer's public key has arrived: the shared
/// secret.
pub fn establish(my_secret: &[u8; 32], bob_public: &[u8; 32]) -> (shared: [u8; 32])
    ensures
        shared@ == x25519_shared(my_secret@, bob_public@),
{
    diffie_hellman(my_secret, bob_public)
}

/// Two exchanges: the first gives the key, the second the nonce.
pub fn key_nonce_agreement(
    key_secret: &[u8; 32],
    key_peer: &[u8; 32],
    nonce_secret: &[u8; 32],
    nonce_peer: &[u8; 32],
) -> (pair: KeyPair)
    ensures
        pair.key@ == x25519_shared(key_secret@, key_peer@),
        pair.nonce@ == x25519_shared(nonce_secret@, nonce_peer@),
{
    let key = establish(key_secret, key_peer);
    let nonce = establish(nonce_secret, nonce_peer);
    KeyPair { key, nonce }
}

/// The two cipher contexts that four agreed secrets give, as plain values:
/// the first two make the context of the inbound direction, the last two
/// that of the outbound direction.
pub open spec fn contexts_of(shared: Seq<Seq<u8>>) -> (ChaChaKeyView, ChaChaKeyView) {
    (context_of(shared[0], shared[1]), context_of(shared[2], shared[3]))
}

/// The secrets of four exchanges, given our secret and the peer's public
/// key of each.
pub open spec fn shared_secrets(secrets: Seq<Seq<u8>>, peers: Seq<Seq<u8>>) -> Seq<Seq<u8>> {
    Seq::new(EXCHANGES as nat, |i: int| x25519_shared(secrets[i], peers[i]))
}

/// The whole agreement, once all four public keys of the peer have
/// arrived: the contexts of the inbound and of the outbound direction.
pub fn get_secrets_chacha(secrets: &[[u8; 32]; 4], peers: &[[u8; 32]; 4]) -> (contexts: (
    ChaChaKey,
    ChaChaKey,
))
    ensures
        (contexts.0@, contexts.1@) == contexts_of(
            shared_secrets(
                Seq::new(4, |i: int| secrets@[i]@),
                Seq::new(4, |i: int| peers@[i]@),
            ),
        ),
{
    let m = key_nonce_agreement(&secrets[0], &peers[0], &secrets[1], &peers[1]);
    let s = key_nonce_agreement(&secrets[2], &peers[2], &secrets[3], &peers[3]);
    let master = ChaChaKey::from(m);
    let slave = ChaChaKey::from(s);
    (master, slave)
}

/// The 32 bytes, where there are any, as a plain value.
pub open spec fn bytes_of(bytes: Option<[u8; 32]>) -> Option<Seq<u8>> {
    match bytes {
        Some(array) => Some(array@),
        None => None,
    }
}

/// What the caller of a key agreement has to do next.
#[derive(Clone, Copy, Debug, PartialEq, Eq)]
pub enum ExchangeStep {
    /// Write these 32 bytes to the stream, flush, and read exactly 32 bytes
    /// back.
    Send([u8; 32]),
    /// The agreement is over: with both contexts, or without any.
    Done(Option<(ChaChaKey, ChaChaKey)>),
}

/// A step as a plain value.
pub enum ExchangeStepView {
    Send(Seq<u8>),
    Done(Option<(ChaChaKeyView, ChaChaKeyView)>),
}

impl View for ExchangeStep {
    type V = ExchangeStepView;

    open spec fn view(&self) -> ExchangeStepView {
        match self {
            ExchangeStep::Send(public) => ExchangeStepView::Send(public@),
            ExchangeStep::Done(Some(contexts)) => ExchangeStepView::Done(
                Some((contexts.0@, contexts.1@)),
            ),
            ExchangeStep::Done(None) => ExchangeStepView::Done(None),
        }
    }
}

/// The state of a key agreement.
pub struct ExchangeModel {
    /// The exchange in progress, counted from zero; `EXCHANGES` when the
    /// agreement is over.
    pub round: int,
    /// Our secret of the exchange in progress.
    pub secret: Seq<u8>,
    /// The secrets agreed on so far, in the order of the exchanges. A failed
    /// exchange leaves the secret it found.
    pub shared: Seq<Seq<u8>>,
    /// Whether the first pair of exchanges went through.
    pub inbound_agreed: bool,
}

impl ExchangeModel {
    /// An agreement before its first exchange: nothing is agreed on.
    pub open spec fn initial() -> ExchangeModel {
        ExchangeModel {
            round: 0,
            secret: Seq::new(32, |i: int| 0u8),
            shared: Seq::new(EXCHANGES as nat, |i: int| Seq::new(32, |j: int| 0u8)),
            inbound_agreed: true,
        }
    }

    pub open spec fn wf(self) -> bool {
        &&& 0 <= self.round <= EXCHANGES
        &&& self.shared.len() == EXCHANGES
    }

    /// The agreement is over, without contexts.
    pub open spec fn fail(self) -> (ExchangeModel, ExchangeStepView) {
        (ExchangeModel { round: EXCHANGES as int, ..self }, ExchangeStepView::Done(None))
    }

    /// The exchange `round` begins with a fresh secret. Without one the
    /// agreement fails.
    pub open spec fn enter(self, round: int, fresh: Option<Seq<u8>>) -> (
        ExchangeModel,
        ExchangeStepView,
    ) {
        match fresh {
            Some(secret) => (
                ExchangeModel { round, secret, ..self },
                ExchangeStepView::Send(x25519_public(secret)),
            ),
            None => self.fail(),
        }
    }

    /// What follows the exchange in progress, given the peer's public key,
    /// or `None` where the stream failed, and a fresh secret for the
    /// exchange that may follow.
    ///
    /// An exchange that goes through adds its secret; after the fourth the
    /// agreement is over, with both contexts if all four went through. A
    /// failure in the first pair of exchanges skips what is left of the
    /// pair: the second pair is still run, but without contexts at the end.
    /// A failure in the second pair ends the agreement.
    pub open spec fn next(self, peer: Option<Seq<u8>>, fresh: Option<Seq<u8>>) -> (
        ExchangeModel,
        ExchangeStepView,
    ) {
        if self.round >= EXCHANGES {
            self.fail()
        } else {
            match peer {
                Some(public) => {
                    let agreed = ExchangeModel {
                        shared: self.shared.update(
                            self.round,
                            x25519_shared(self.secret, public),
                        ),
                        ..self
                    };
                    if self.round + 1 < EXCHANGES {
                        agreed.enter(self.round + 1, fresh)
                    } else if self.inbound_agreed {
                        (
                            ExchangeModel { round: EXCHANGES as int, ..agreed },
                            ExchangeStepView::Done(Some(contexts_of(agreed.shared))),
                        )
                    } else {
                        agreed.fail()
                    }
                },
                None => if self.round < 2 {
                    (ExchangeModel { inbound_agreed: false, ..self }).enter(2, fresh)
                } else {
                    self.fail()
                },
            }
        }
    }
}

/// A key agreement in progress. The caller owns the stream: it sends what
/// `Send` holds, reads the peer's answer and hands it to `proceed`, until
/// `Done` comes back.
pub struct KeyExchange {
    round: u8,
    secret: [u8; 32],
    shared: [[u8; 32]; 4],
    inbound_agreed: bool,
}

impl View for KeyExchange {
    type V = ExchangeModel;

    closed spec fn view(&self) -> ExchangeModel {
        ExchangeModel {
            round: self.round as int,
            secret: self.secret@,
            shared: Seq::new(EXCHANGES as nat, |i: int| self.shared@[i]@),
            inbound_agreed: self.inbound_agreed,
        }
    }
}

impl KeyExchange {
    #[verifier::type_invariant]
    spec fn round_in_range(self) -> bool {
        self.round <= EXCHANGES
    }

    /// An agreement before its first exchange.
    pub fn new() -> (exchange: Self)
        ensures
            exchange@ == ExchangeModel::initial(),
            exchange@.wf(),
    {
        let exchange = KeyExchange {
            round: 0,
            secret: [0u8;32],
            shared: [[0u8;32];4],
            inbound_agreed: true,
        };
        assert(exchange@.secret =~= ExchangeModel::initial().secret);
        assert(exchange@.shared =~= ExchangeModel::initial().shared) by {
            assert forall|i: int| 0 <= i < 4 implies #[trigger] exchange@.shared[i]
                == ExchangeModel::initial().shared[i] by {
                assert(exchange.shared@[i]@ =~= Seq::new(32, |j: int| 0u8));
            }
        }
        exchange
    }

    fn fail(&mut self) -> (step: ExchangeStep)
        ensures
            (final(self)@, step@) == old(self)@.fail(),
    {
        self.round = EXCHANGES;
        ExchangeStep::Done(None)
    }

    fn enter(&mut self, round: u8, fresh: Option<[u8; 32]>) -> (step: ExchangeStep)
        requires
            round < EXCHANGES,
        ensures
            (final(self)@, step@) == old(self)@.enter(
                round as int,
                bytes_of(fresh),
            ),
    {
        match fresh {
            Some(secret) => {
                self.round = round;
                self.secret = secret;
                ExchangeStep::Send(derive_public(&secret))
            },
            None => self.fail(),
        }
    }

    /// Begins the first exchange with the secret given.
    pub fn begin_with(&mut self, fresh: Option<[u8; 32]>) -> (step: ExchangeStep)
        ensures
            (final(self)@, step@) == old(self)@.enter(
                0,
                bytes_of(fresh),
            ),
    {
        self.enter(0, fresh)
    }

    /// Takes the outcome of the exchange in progress, the peer's public key
    /// or `None` where the stream failed, and begins the exchange that
    /// follows, if one does, with the secret given.
    pub fn proceed_with(&mut self, peer: Option<[u8; 32]>, fresh: Option<[u8; 32]>) -> (step:
        ExchangeStep)
        ensures
            (final(self)@, step@) == old(self)@.next(
                bytes_of(peer),
                bytes_of(fresh),
            ),
    {
        proof {
            use_type_invariant(&*self);
        }
        if self.round >= EXCHANGES {
            return self.fail();
        }
        match peer {
            Some(public) => {
                let agreed = establish(&self.secret, &public);
                let round = self.round as usize;
                self.shared[round] = agreed;
                assert(self@.shared =~= old(self)@.shared.update(
                    old(self)@.round,
                    x25519_shared(old(self)@.secret, public@),
                ));
                if self.round + 1 < EXCHANGES {
                    self.enter(self.round + 1, fresh)
                } else if self.inbound_agreed {
                    self.round = EXCHANGES;
                    let master = ChaChaKey::from(
                        KeyPair { key: self.shared[0], nonce: self.shared[1] },
                    );
                    let slave = ChaChaKey::from(
                        KeyPair { key: self.shared[2], nonce: self.shared[3] },
                    );
                    ExchangeStep::Done(Some((master, slave)))
                } else {
                    self.fail()
                }
            },
            None => {
                if self.round < 2 {
                    self.inbound_agreed = false;
                    self.enter(2, fresh)
                } else {
                    self.fail()
                }
            },
        }
    }

    /// Begins the first exchange with a secret from the operating system's
    /// random number generator. What comes back is what `begin_with` makes
    /// of some secret, or of none where the generator failed.
    pub fn begin(&mut self) -> (step: ExchangeStep)
        ensures
            exists|fresh: Option<Seq<u8>>|
                (final(self)@, step@) == #[trigger] old(self)@.enter(0, fresh),
    {
        let fresh = random_secret();
        let ghost drawn = bytes_of(fresh);
        let step = self.begin_with(fresh);
        assert((self@, step@) == old(self)@.enter(0, drawn));
        step
    }

    /// Takes the outcome of the exchange in progress and begins the
    /// exchange that follows with a secret from the operating system's
    /// random number generator. What comes back is what `proceed_with`
    /// makes of some secret, or of none where the generator failed.
    pub fn proceed(&mut self, peer: Option<[u8; 32]>) -> (step: ExchangeStep)
        ensures
            exists|fresh: Option<Seq<u8>>|
                (final(self)@, step@) == #[trigger] old(self)@.next(
                    bytes_of(peer),
                    fresh,
                ),
    {
        let fresh = random_secret();
        let ghost drawn = bytes_of(fresh);
        let ghost answer = bytes_of(peer);
        let step = self.proceed_with(peer, fresh);
        assert((self@, step@) == old(self)@.next(answer, drawn));
        step
    }
}


/// Four secrets with two of them exchanged.
pub open spec fn swapped(shared: Seq<Seq<u8>>, i: int, j: int) -> Seq<Seq<u8>> {
    shared.update(i, shared[j]).update(j, shared[i])
}

/// Exchanging a secret of the first pair with one of the second changes
/// both contexts, provided the two secrets differ in their first twelve
/// bytes.
pub proof fn lemma_swap_across_pairs_changes_both(shared: Seq<Seq<u8>>, i: int, j: int)
    requires
        shared.len() == EXCHANGES,
        0 <= i < 2 <= j < EXCHANGES,
        shared[i].subrange(0, 12) != shared[j].subrange(0, 12),
    ensures
        contexts_of(swapped(shared, i, j)).0 != contexts_of(shared).0,
        contexts_of(swapped(shared, i, j)).1 != contexts_of(shared).1,
{
}

/// Exchanging the two secrets of one pair leaves the context of the other
/// pair as it was.
pub proof fn lemma_swap_within_pair_keeps_the_other(shared: Seq<Seq<u8>>)
    requires
        shared.len() == EXCHANGES,
    ensures
        contexts_of(swapped(shared, 0, 1)).1 == contexts_of(shared).1,
        contexts_of(swapped(shared, 2, 3)).0 == contexts_of(shared).0,
{
}

/// An agreement whose four exchanges go through ends with the contexts
/// made of the four shared secrets, in the order of the exchanges, and
/// sends the public key of each fresh secret on the way.
pub proof fn lemma_full_agreement(
    secrets: Seq<Seq<u8>>,
    peers: Seq<Seq<u8>>,
    spare: Option<Seq<u8>>,
)
    requires
        secrets.len() == EXCHANGES,
        peers.len() == EXCHANGES,
    ensures
        ({
            let s0 = ExchangeModel::initial().enter(0, Some(secrets[0]));
            let s1 = s0.0.next(Some(peers[0]), Some(secrets[1]));
            let s2 = s1.0.next(Some(peers[1]), Some(secrets[2]));
            let s3 = s2.0.next(Some(peers[2]), Some(secrets[3]));
            let s4 = s3.0.next(Some(peers[3]), spare);
            &&& s0.1 == ExchangeStepView::Send(x25519_public(secrets[0]))
            &&& s1.1 == ExchangeStepView::Send(x25519_public(secrets[1]))
            &&& s2.1 == ExchangeStepView::Send(x25519_public(secrets[2]))
            &&& s3.1 == ExchangeStepView::Send(x25519_public(secrets[3]))
            &&& s4.1 == ExchangeStepView::Done(Some(contexts_of(shared_secrets(secrets, peers))))
        }),
{
    let s0 = ExchangeModel::initial().enter(0, Some(secrets[0]));
    let s1 = s0.0.next(Some(peers[0]), Some(secrets[1]));
    let s2 = s1.0.next(Some(peers[1]), Some(secrets[2]));
    let s3 = s2.0.next(Some(peers[2]), Some(secrets[3]));
    let s4 = s3.0.next(Some(peers[3]), spare);
    assert(s4.0.shared =~= shared_secrets(secrets, peers));
}

/// Once an exchange has failed, the agreement gives no contexts, whatever
/// comes after.
pub proof fn lemma_failure_gives_no_contexts(
    exchange: ExchangeModel,
    peer: Option<Seq<u8>>,
    fresh: Option<Seq<u8>>,
)
    requires
        exchange.wf(),
    ensures
        peer is None || !exchange.inbound_agreed ==> !(exchange.next(peer, fresh).1 matches ExchangeStepView::Done(
            Some(_),
        )),
        !exchange.inbound_agreed ==> !exchange.next(peer, fresh).0.inbound_agreed,
        peer is None ==> !exchange.next(peer, fresh).0.inbound_agreed || exchange.next(
            peer,
            fresh,
        ).0.round == EXCHANGES,
        exchange.round == EXCHANGES ==> exchange.next(peer, fresh).1 == ExchangeStepView::Done(
            None,
        ) && exchange.next(peer, fresh).0.round == EXCHANGES,
        exchange.next(peer, fresh).0.wf(),
{
}

} // verus!
