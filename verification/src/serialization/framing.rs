//! Length-delimited framing: every message travels behind its length,
//! written as a varint.

use vstd::prelude::*;

verus! {

/// No varint is longer than this, in bytes.
pub const VARINT_LIMIT: usize = 10;

/// A body can be no longer than this, in bytes.
pub const LONGEST_BODY: usize = 0xFFFF_FFFF;

/// One more than the largest number that a varint is read as.
pub open spec fn varint_range() -> nat {
    0x1_0000_0000_0000_0000
}

/// A number as a varint: seven bits to the byte, the low ones first, and
/// the high bit set in every byte but the last.
pub open spec fn varint_encoding(value: nat) -> Seq<u8>
    decreases value,
{
    if value < 128 {
        seq![value as u8]
    } else {
        seq![(value % 128 + 128) as u8] + varint_encoding(value / 128)
    }
}

/// A number and the number of bytes that spell it.
pub struct Varint {
    pub value: nat,
    pub len: nat,
}

/// The number that the bytes begin with, and how many bytes spell it;
/// nothing where the bytes end, or the limit is reached, before the number
/// does.
pub open spec fn varint_prefix(bytes: Seq<u8>, limit: nat) -> Option<Varint>
    decreases limit,
{
    if limit == 0 || bytes.len() == 0 {
        None
    } else if bytes[0] < 128 {
        Some(Varint { value: bytes[0] as nat, len: 1 })
    } else {
        match varint_prefix(bytes.subrange(1, bytes.len() as int), (limit - 1) as nat) {
            Some(higher) => Some(
                Varint {
                    value: ((bytes[0] - 128) + 128 * higher.value) as nat,
                    len: higher.len + 1,
                },
            ),
            None => None,
        }
    }
}

/// Whether the bytes begin with more continued bytes than a varint may
/// have.
pub open spec fn unterminated(bytes: Seq<u8>) -> bool {
    bytes.len() >= VARINT_LIMIT && forall|i: int| 0 <= i < VARINT_LIMIT ==> bytes[i] >= 128
}

/// What reading a varint off the start of some bytes comes to.
#[derive(Clone, Copy, Debug, PartialEq, Eq, Structural)]
pub enum VarintRead {
    /// The number, and how many bytes spelled it.
    Value(u64, usize),
    /// The bytes end before the number does.
    Incomplete,
    /// The number does not end where it must.
    Malformed,
}

/// What the `count`-th byte of a varint counts for: 128 to the power of
/// `count`.
pub open spec fn weight(count: nat) -> nat
    decreases count,
{
    if count == 0 {
        1
    } else {
        128 * weight((count - 1) as nat)
    }
}

/// The number that the bytes begin with, given that a number begins `count`
/// bytes further on and the bytes before it spell `low`.
pub open spec fn continued(low: nat, count: nat, further: Option<Varint>) -> Option<Varint> {
    match further {
        Some(higher) => Some(
            Varint { value: low + weight(count) * higher.value, len: higher.len + count },
        ),
        None => None,
    }
}

proof fn lemma_weights(count: nat)
    requires
        count <= VARINT_LIMIT,
    ensures
        1 <= weight(count) <= 0x40_0000_0000_0000_0000,
        count < VARINT_LIMIT ==> weight(count + 1) == 128 * weight(count) && weight(count)
            <= 0x8000_0000_0000_0000,
    decreases count,
{
    reveal_with_fuel(weight, 2);
    if count > 0 {
        lemma_weights((count - 1) as nat);
    }
    if count == 0 {
    } else if count == 1 {
        reveal_with_fuel(weight, 3);
    } else if count == 2 {
        reveal_with_fuel(weight, 4);
    } else if count == 3 {
        reveal_with_fuel(weight, 5);
    } else if count == 4 {
        reveal_with_fuel(weight, 6);
    } else if count == 5 {
        reveal_with_fuel(weight, 7);
    } else if count == 6 {
        reveal_with_fuel(weight, 8);
    } else if count == 7 {
        reveal_with_fuel(weight, 9);
    } else if count == 8 {
        reveal_with_fuel(weight, 10);
    } else if count == 9 {
        reveal_with_fuel(weight, 11);
    } else {
        reveal_with_fuel(weight, 12);
    }
}

proof fn lemma_one_more_byte(bytes: Seq<u8>, at: nat, low: nat)
    requires
        at < bytes.len(),
        at < VARINT_LIMIT,
    ensures
        bytes[at as int] < 128 ==> continued(
            low,
            at,
            varint_prefix(bytes.subrange(at as int, bytes.len() as int), (VARINT_LIMIT - at) as nat),
        ) == Some(
            Varint { value: low + weight(at) * (bytes[at as int] as nat), len: at + 1 },
        ),
        bytes[at as int] >= 128 ==> continued(
            low,
            at,
            varint_prefix(bytes.subrange(at as int, bytes.len() as int), (VARINT_LIMIT - at) as nat),
        ) == continued(
            low + weight(at) * ((bytes[at as int] - 128) as nat),
            at + 1,
            varint_prefix(
                bytes.subrange(at as int + 1, bytes.len() as int),
                (VARINT_LIMIT - at - 1) as nat,
            ),
        ),
{
    let here = bytes.subrange(at as int, bytes.len() as int);
    let after = bytes.subrange(at as int + 1, bytes.len() as int);
    let byte = bytes[at as int];
    assert(here[0] == byte);
    assert(here.subrange(1, here.len() as int) =~= after);
    reveal_with_fuel(weight, 2);
    if byte >= 128 {
        match varint_prefix(after, (VARINT_LIMIT - at - 1) as nat) {
            Some(higher) => {
                let w = weight(at);
                let rest = (byte - 128) as nat;
                let h = higher.value;
                assert(low + w * (rest + 128 * h) == low + w * rest + (128 * w) * h)
                    by (nonlinear_arith);
            },
            None => {},
        }
    }
}

/// Reads a varint off the start of the bytes. It takes at most ten bytes,
/// keeps the low 64 bits of what they spell, and says how many bytes it
/// took. It fails as malformed where ten bytes do not end the number, and
/// as incomplete where the bytes end first.
fn read_varint(bytes: &[u8]) -> (read: VarintRead)
    ensures
        match read {
            VarintRead::Value(value, len) => match varint_prefix(bytes@, VARINT_LIMIT as nat) {
                Some(found) => value == found.value % varint_range() && len == found.len,
                None => false,
            },
            VarintRead::Malformed => unterminated(bytes@),
            VarintRead::Incomplete => varint_prefix(bytes@, VARINT_LIMIT as nat) is None
                && !unterminated(bytes@),
        },
{
    let mut low: u128 = 0;
    let mut scale: u128 = 1;
    let mut at: usize = 0;
    assert(bytes@.subrange(0, bytes@.len() as int) =~= bytes@);
    while at < bytes.len() && at < VARINT_LIMIT
        invariant
            at <= bytes.len(),
            at <= VARINT_LIMIT,
            scale == weight(at as nat),
            low < scale,
            forall|j: int| 0 <= j < at ==> bytes@[j] >= 128,
            varint_prefix(bytes@, VARINT_LIMIT as nat) == continued(
                low as nat,
                at as nat,
                varint_prefix(
                    bytes@.subrange(at as int, bytes@.len() as int),
                    (VARINT_LIMIT - at) as nat,
                ),
            ),
        decreases bytes.len() - at,
    {
        proof {
            lemma_weights(at as nat);
            lemma_one_more_byte(bytes@, at as nat, low as nat);
        }
        let byte = bytes[at];
        if byte < 128 {
            assert(scale * (byte as u128) <= 0x8000_0000_0000_0000 * 128) by (nonlinear_arith)
                requires
                    scale <= 0x8000_0000_0000_0000,
                    byte < 128,
            ;
            let value: u128 = low + scale * (byte as u128);
            return VarintRead::Value((value % 0x1_0000_0000_0000_0000) as u64, at + 1);
        }
        assert(scale * ((byte - 128) as u128) + scale <= scale * 128 && scale * 128
            <= 0x8000_0000_0000_0000 * 128) by (nonlinear_arith)
            requires
                scale <= 0x8000_0000_0000_0000,
                128 <= byte <= 255,
        ;
        low = low + scale * ((byte - 128) as u128);
        scale = scale * 128;
        at = at + 1;
    }
    if at == VARINT_LIMIT {
        VarintRead::Malformed
    } else {
        assert(bytes@.subrange(at as int, bytes@.len() as int).len() == 0);
        VarintRead::Incomplete
    }
}

/// The number as a varint.
fn write_varint(value: u32) -> (bytes: Vec<u8>)
    ensures
        bytes@ == varint_encoding(value as nat),
{
    let mut bytes: Vec<u8> = Vec::new();
    let mut rest: u32 = value;
    assert(bytes@ + varint_encoding(rest as nat) =~= varint_encoding(value as nat));
    while rest >= 128
        invariant
            bytes@ + varint_encoding(rest as nat) == varint_encoding(value as nat),
        decreases rest,
    {
        let ghost before = bytes@;
        let ghost byte = (rest % 128 + 128) as u8;
        let ghost higher = varint_encoding((rest / 128) as nat);
        assert(varint_encoding(rest as nat) == seq![byte] + higher);
        bytes.push((rest % 128 + 128) as u8);
        rest = rest / 128;
        assert(bytes@ + higher =~= before + (seq![byte] + higher));
    }
    let ghost before = bytes@;
    bytes.push(rest as u8);
    assert(bytes@ =~= before + varint_encoding(rest as nat));
    bytes
}

/// A body behind its length.
pub open spec fn frame_of(body: Seq<u8>) -> Seq<u8> {
    varint_encoding(body.len()) + body
}

/// What the start of a buffer holds.
#[derive(Clone, Copy, Debug, PartialEq, Eq, Structural)]
pub enum Deframed {
    /// A whole message: its body is the bytes from `start` up to `end`.
    Complete { start: usize, end: usize },
    /// Not yet a whole message.
    Incomplete,
    /// No message: the length does not end where it must.
    Malformed,
}

/// What the start of a buffer holds: a whole message once its length and
/// as many bytes as the length says are there.
pub open spec fn frame_at_start(buf: Seq<u8>) -> Deframed {
    if unterminated(buf) {
        Deframed::Malformed
    } else {
        match varint_prefix(buf, VARINT_LIMIT as nat) {
            None => Deframed::Incomplete,
            Some(found) => if buf.len() - found.len >= found.value % varint_range() {
                Deframed::Complete {
                    start: found.len as usize,
                    end: (found.len + found.value % varint_range()) as usize,
                }
            } else {
                Deframed::Incomplete
            },
        }
    }
}

/// Puts a body behind its length, unless it is too long for that.
pub fn frame(body: &[u8]) -> (framed: Option<Vec<u8>>)
    ensures
        match framed {
            Some(bytes) => body@.len() <= LONGEST_BODY && bytes@ == frame_of(body@),
            None => body@.len() > LONGEST_BODY,
        },
{
    if body.len() > LONGEST_BODY {
        return None;
    }
    let mut bytes = write_varint(body.len() as u32);
    let ghost prefix = bytes@;
    bytes.extend_from_slice(body);
    assert(bytes@ =~= prefix + body@);
    Some(bytes)
}

/// Looks for a whole message at the start of a buffer.
pub fn deframe(buf: &[u8]) -> (found: Deframed)
    ensures
        found == frame_at_start(buf@),
        found matches Deframed::Complete { start, end } ==> start <= end <= buf@.len(),
{
    match read_varint(buf) {
        VarintRead::Value(value, len) => {
            proof {
                lemma_prefix_is_within(buf@, VARINT_LIMIT as nat);
                if unterminated(buf@) {
                    lemma_unterminated_has_no_prefix(buf@, VARINT_LIMIT as nat);
                }
            }
            if (buf.len() - len) as u64 >= value {
                Deframed::Complete { start: len, end: len + value as usize }
            } else {
                Deframed::Incomplete
            }
        },
        VarintRead::Incomplete => Deframed::Incomplete,
        VarintRead::Malformed => {
            proof {
                lemma_unterminated_has_no_prefix(buf@, VARINT_LIMIT as nat);
            }
            Deframed::Malformed
        },
    }
}

/// What taking a message off a buffer comes to.
#[derive(Debug, PartialEq, Eq)]
pub enum Popped {
    /// The body of the message.
    Frame(Vec<u8>),
    /// There is no whole message yet.
    Incomplete,
    /// What is there is no message.
    Malformed,
}

/// The bytes that came off the stream and have not been taken as messages
/// yet.
pub struct FrameBuffer {
    pending: Vec<u8>,
}

impl View for FrameBuffer {
    type V = Seq<u8>;

    closed spec fn view(&self) -> Seq<u8> {
        self.pending@
    }
}

impl FrameBuffer {
    /// A buffer without bytes.
    pub fn new() -> (buffer: FrameBuffer)
        ensures
            buffer@ == Seq::<u8>::empty(),
    {
        FrameBuffer { pending: Vec::new() }
    }

    /// Adds what came off the stream.
    pub fn push(&mut self, bytes: &[u8])
        ensures
            final(self)@ == old(self)@ + bytes@,
    {
        self.pending.extend_from_slice(bytes);
        assert(self.pending@ =~= old(self).pending@ + bytes@);
    }

    /// Takes the first message off the buffer, once it is whole. The bytes
    /// behind it stay.
    pub fn pop(&mut self) -> (popped: Popped)
        ensures
            match frame_at_start(old(self)@) {
                Deframed::Complete { start, end } => popped matches Popped::Frame(body) && body@
                    == old(self)@.subrange(start as int, end as int) && final(self)@ == old(
                    self,
                )@.subrange(end as int, old(self)@.len() as int),
                Deframed::Incomplete => popped == Popped::Incomplete && final(self)@ == old(self)@,
                Deframed::Malformed => popped == Popped::Malformed && final(self)@ == old(self)@,
            },
    {
        match deframe(self.pending.as_slice()) {
            Deframed::Complete { start, end } => {
                let rest = self.pending.split_off(end);
                let body = self.pending.split_off(start);
                self.pending = rest;
                assert(body@ =~= old(self)@.subrange(start as int, end as int));
                Popped::Frame(body)
            },
            Deframed::Incomplete => Popped::Incomplete,
            Deframed::Malformed => Popped::Malformed,
        }
    }
}

/// 128 to the power of `n`.
pub open spec fn groups(n: nat) -> nat
    decreases n,
{
    if n == 0 {
        1
    } else {
        128 * groups((n - 1) as nat)
    }
}

/// A varint is spelled with at least one byte, with no more bytes than the
/// limit allows and no more than there are.
pub proof fn lemma_prefix_is_within(bytes: Seq<u8>, limit: nat)
    ensures
        varint_prefix(bytes, limit) matches Some(found) ==> 1 <= found.len <= limit && found.len
            <= bytes.len(),
    decreases limit,
{
    if limit > 0 && bytes.len() > 0 && bytes[0] >= 128 {
        lemma_prefix_is_within(bytes.subrange(1, bytes.len() as int), (limit - 1) as nat);
    }
}

proof fn lemma_unterminated_has_no_prefix(bytes: Seq<u8>, limit: nat)
    requires
        bytes.len() >= limit,
        forall|i: int| 0 <= i < limit ==> bytes[i] >= 128,
    ensures
        varint_prefix(bytes, limit) is None,
    decreases limit,
{
    if limit > 0 {
        let rest = bytes.subrange(1, bytes.len() as int);
        assert forall|i: int| 0 <= i < limit - 1 implies rest[i] >= 128 by {
            assert(rest[i] == bytes[i + 1]);
        }
        lemma_unterminated_has_no_prefix(rest, (limit - 1) as nat);
    }
}

proof fn lemma_encoding_is_read_back(value: nat, rest: Seq<u8>, limit: nat)
    requires
        limit > 0,
        value < groups(limit),
    ensures
        varint_prefix(varint_encoding(value) + rest, limit) == Some(
            Varint { value, len: varint_encoding(value).len() },
        ),
        1 <= varint_encoding(value).len() <= limit,
    decreases limit,
{
    let bytes = varint_encoding(value) + rest;
    reveal_with_fuel(groups, 2);
    if value >= 128 {
        assert(limit > 1) by {
            if limit == 1 {
                assert(groups(1) == 128 * groups(0));
            }
        }
        let higher = varint_encoding(value / 128);
        assert(value / 128 < groups((limit - 1) as nat)) by (nonlinear_arith)
            requires
                value < 128 * groups((limit - 1) as nat),
        ;
        lemma_encoding_is_read_back(value / 128, rest, (limit - 1) as nat);
        assert(varint_encoding(value) =~= seq![(value % 128 + 128) as u8] + higher);
        assert(bytes.subrange(1, bytes.len() as int) =~= higher + rest);
        assert(bytes[0] == (value % 128 + 128) as u8);
        assert((bytes[0] - 128) + 128 * (value / 128) == value);
    } else {
        assert(varint_encoding(value) =~= seq![value as u8]);
        assert(bytes[0] == value);
    }
}

proof fn lemma_cut_encoding_is_not_read(value: nat, cut: int, limit: nat)
    requires
        0 <= cut < varint_encoding(value).len(),
    ensures
        varint_prefix(varint_encoding(value).subrange(0, cut), limit) is None,
        forall|i: int| 0 <= i < cut ==> varint_encoding(value)[i] >= 128,
    decreases value,
{
    let whole = varint_encoding(value);
    let part = whole.subrange(0, cut);
    if value >= 128 && cut > 0 {
        let higher = varint_encoding(value / 128);
        lemma_cut_encoding_is_not_read(value / 128, cut - 1, (limit - 1) as nat);
        assert(part.subrange(1, part.len() as int) =~= higher.subrange(0, cut - 1));
        assert forall|i: int| 0 <= i < cut implies whole[i] >= 128 by {
            if i > 0 {
                assert(whole[i] == higher[i - 1]);
            }
        }
    }
}

/// A varint that was written is read back as the number it was written
/// for, whatever follows it.
pub proof fn lemma_varint_round_trip(value: nat, rest: Seq<u8>)
    requires
        value < varint_range(),
    ensures
        varint_prefix(varint_encoding(value) + rest, VARINT_LIMIT as nat) == Some(
            Varint { value, len: varint_encoding(value).len() },
        ),
        1 <= varint_encoding(value).len() <= VARINT_LIMIT,
        !unterminated(varint_encoding(value) + rest),
{
    assert(groups(10) == 0x40_0000_0000_0000_0000) by {
        reveal_with_fuel(groups, 11);
    }
    lemma_encoding_is_read_back(value, rest, VARINT_LIMIT as nat);
    if unterminated(varint_encoding(value) + rest) {
        lemma_unterminated_has_no_prefix(varint_encoding(value) + rest, VARINT_LIMIT as nat);
    }
}

/// A message that was framed is found again at the start of a buffer,
/// whatever follows it: its body is what was framed, and what follows
/// begins where the message ends.
pub proof fn lemma_frame_round_trip(body: Seq<u8>, rest: Seq<u8>)
    requires
        body.len() <= LONGEST_BODY,
    ensures
        ({
            let start = varint_encoding(body.len()).len() as int;
            let buf = frame_of(body) + rest;
            &&& frame_at_start(buf) == Deframed::Complete {
                start: start as usize,
                end: (start + body.len()) as usize,
            }
            &&& buf.subrange(start, start + body.len()) == body
            &&& buf.subrange(start + body.len(), buf.len() as int) == rest
        }),
{
    let prefix = varint_encoding(body.len());
    let start = prefix.len() as int;
    let buf = frame_of(body) + rest;
    lemma_varint_round_trip(body.len(), body + rest);
    assert(buf =~= prefix + (body + rest));
    assert(buf.subrange(start, start + body.len()) =~= body);
    assert(buf.subrange(start + body.len(), buf.len() as int) =~= rest);
}

/// As long as a message has not arrived whole, nothing is taken for a
/// message.
pub proof fn lemma_part_of_a_frame_is_incomplete(body: Seq<u8>, cut: int)
    requires
        body.len() <= LONGEST_BODY,
        0 <= cut < frame_of(body).len(),
    ensures
        frame_at_start(frame_of(body).subrange(0, cut)) == Deframed::Incomplete,
{
    let prefix = varint_encoding(body.len());
    let part = frame_of(body).subrange(0, cut);
    lemma_varint_round_trip(body.len(), body);
    if cut < prefix.len() {
        lemma_cut_encoding_is_not_read(body.len(), cut, VARINT_LIMIT as nat);
        assert(part =~= prefix.subrange(0, cut));
    } else {
        let arrived = body.subrange(0, cut - prefix.len());
        assert(part =~= prefix + arrived);
        lemma_varint_round_trip(body.len(), arrived);
    }
}

} // verus!
