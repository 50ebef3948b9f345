//! The keystream laid over one direction of the transport.
//!
//! What is read from the socket is handed to a `Decryptor`, what is to be
//! written is taken from an `Encryptor`. Both walk the same keystream, so
//! that a reader with the key and nonce of a writer gets back what the
//! writer was given, however the bytes were cut up on the way.

use vstd::prelude::*;
use super::{ChaChaKey, ChaChaKeyView};
use chacha20::cipher::{KeyIvInit, StreamCipher, StreamCipherSeek};
use chacha20::ChaCha20;

verus! {

/// Number of bytes that one key and nonce can cover: the cipher counts
/// blocks of 64 bytes in 32 bits and does not use the last count.
pub const KEYSTREAM_LIMIT: u64 = 274_877_906_880;

/// The byte at `index` of the ChaCha20 keystream of a key and a nonce, the
/// block counter starting at zero.
pub uninterp spec fn chacha20_keystream(key: Seq<u8>, nonce: Seq<u8>, index: int) -> u8;

/// `data` with the keystream from `position` on laid over it.
pub open spec fn xor_keystream(key: Seq<u8>, nonce: Seq<u8>, position: int, data: Seq<u8>) -> Seq<
    u8,
> {
    Seq::new(data.len(), |i: int| data[i] ^ chacha20_keystream(key, nonce, position + i))
}

/// `ChaCha20::new`, `try_seek` and `try_apply_keystream` of the crate
/// `chacha20`: a cipher made of the key and the nonce is moved to the byte
/// `position` of its keystream and laid over a copy of `data`. Each byte
/// that comes out is the byte that went in, combined by exclusive or with
/// the keystream byte at its place. The cipher refuses, and nothing comes
/// out, where the data would reach beyond the end of the keystream.
#[verifier::external_body]
fn apply_keystream(key: &[u8; 32], nonce: &[u8; 12], position: u64, data: &[u8]) -> (out: Option<
    Vec<u8>,
>)
    requires
        position <= KEYSTREAM_LIMIT,
    ensures
        out is Some <==> position + data@.len() <= KEYSTREAM_LIMIT,
        out matches Some(bytes) ==> bytes@.len() == data@.len() && forall|i: int|
            0 <= i < data@.len() ==> #[trigger] bytes@[i] == data@[i] ^ chacha20_keystream(
                key@,
                nonce@,
                position + i,
            ),
{
    let mut cipher = ChaCha20::new(key.into(), nonce.into());
    cipher.try_seek(position).ok()?;
    let mut bytes = data.to_vec();
    cipher.try_apply_keystream(&mut bytes).ok()?;
    Some(bytes)
}

/// Why nothing was encrypted or decrypted.
#[derive(Clone, Copy, Debug, PartialEq, Eq, Structural)]
pub enum CipherError {
    /// The data would reach beyond the end of the keystream.
    KeystreamExhausted,
}

/// Where one direction of the transport stands in its keystream.
pub struct CipherView {
    pub context: ChaChaKeyView,
    /// Number of bytes that have passed.
    pub position: int,
}

impl CipherView {
    /// A direction that nothing has passed through yet.
    pub open spec fn initial(context: ChaChaKeyView) -> CipherView {
        CipherView { context, position: 0 }
    }

    /// Whether so many more bytes can pass.
    pub open spec fn has_room(self, len: nat) -> bool {
        self.position + len <= KEYSTREAM_LIMIT
    }

    /// What becomes of `data` on its way through.
    pub open spec fn translate(self, data: Seq<u8>) -> Seq<u8> {
        xor_keystream(self.context.key, self.context.nonce, self.position, data)
    }

    /// The direction after `len` more bytes have passed.
    pub open spec fn advanced(self, len: nat) -> CipherView {
        CipherView { position: self.position + len, ..self }
    }
}

/// The reading side: it turns what came from the socket into plain bytes.
#[derive(Debug, PartialEq, Eq)]
pub struct Decryptor {
    key: ChaChaKey,
    position: u64,
}

/// The writing side: it turns plain bytes into what goes to the socket.
#[derive(Debug, PartialEq, Eq)]
pub struct Encryptor {
    key: ChaChaKey,
    position: u64,
}

impl View for Decryptor {
    type V = CipherView;

    closed spec fn view(&self) -> CipherView {
        CipherView { context: self.key@, position: self.position as int }
    }
}

impl View for Encryptor {
    type V = CipherView;

    closed spec fn view(&self) -> CipherView {
        CipherView { context: self.key@, position: self.position as int }
    }
}

impl Decryptor {
    #[verifier::type_invariant]
    spec fn within_keystream(self) -> bool {
        self.position <= KEYSTREAM_LIMIT
    }

    /// A reader at the start of the keystream of `key`.
    pub fn new(key: ChaChaKey) -> (reader: Self)
        ensures
            reader@ == CipherView::initial(key@),
    {
        Self { key, position: 0 }
    }

    /// A reader that goes on after so many bytes of the keystream of `key`,
    /// unless the keystream is not that long.
    pub fn resume(key: ChaChaKey, position: u64) -> (reader: Result<Self, CipherError>)
        ensures
            match reader {
                Ok(reader) => position <= KEYSTREAM_LIMIT && reader@
                    == CipherView::initial(key@).advanced(position as nat),
                Err(error) => position > KEYSTREAM_LIMIT && error == CipherError::KeystreamExhausted,
            },
    {
        if position > KEYSTREAM_LIMIT {
            Err(CipherError::KeystreamExhausted)
        } else {
            Ok(Self { key, position })
        }
    }

    /// Decrypts what one read from the socket brought. Nothing read gives
    /// nothing back, which is how the end of the stream is passed on. Where
    /// the keystream would run out, nothing is decrypted and the reader
    /// stays where it is.
    pub fn read(&mut self, raw: &[u8]) -> (plain: Result<Vec<u8>, CipherError>)
        ensures
            match plain {
                Ok(bytes) => old(self)@.has_room(raw@.len()) && bytes@ == old(self)@.translate(
                    raw@,
                ) && final(self)@ == old(self)@.advanced(raw@.len()),
                Err(error) => !old(self)@.has_room(raw@.len()) && error
                    == CipherError::KeystreamExhausted && final(self)@ == old(self)@,
            },
    {
        proof {
            use_type_invariant(&*self);
        }
        match apply_keystream(&self.key.key, &self.key.nonce, self.position, raw) {
            Some(bytes) => {
                assert(bytes@ =~= self@.translate(raw@));
                self.position = self.position + raw.len() as u64;
                Ok(bytes)
            },
            None => Err(CipherError::KeystreamExhausted),
        }
    }
}

impl Encryptor {
    #[verifier::type_invariant]
    spec fn within_keystream(self) -> bool {
        self.position <= KEYSTREAM_LIMIT
    }

    /// A writer at the start of the keystream of `key`.
    pub fn new(key: ChaChaKey) -> (writer: Self)
        ensures
            writer@ == CipherView::initial(key@),
    {
        Self { key, position: 0 }
    }

    /// A writer that goes on after so many bytes of the keystream of `key`,
    /// unless the keystream is not that long.
    pub fn resume(key: ChaChaKey, position: u64) -> (writer: Result<Self, CipherError>)
        ensures
            match writer {
                Ok(writer) => position <= KEYSTREAM_LIMIT && writer@
                    == CipherView::initial(key@).advanced(position as nat),
                Err(error) => position > KEYSTREAM_LIMIT && error == CipherError::KeystreamExhausted,
            },
    {
        if position > KEYSTREAM_LIMIT {
            Err(CipherError::KeystreamExhausted)
        } else {
            Ok(Self { key, position })
        }
    }

    /// Encrypts a copy of `buf`; the caller writes all of it to the socket
    /// and flushes at once. Where the keystream would run out, nothing is
    /// encrypted and the writer stays where it is; the connection cannot
    /// go on after that.
    pub fn write(&mut self, buf: &[u8]) -> (sealed: Result<Vec<u8>, CipherError>)
        ensures
            match sealed {
                Ok(bytes) => old(self)@.has_room(buf@.len()) && bytes@ == old(self)@.translate(
                    buf@,
                ) && final(self)@ == old(self)@.advanced(buf@.len()),
                Err(error) => !old(self)@.has_room(buf@.len()) && error
                    == CipherError::KeystreamExhausted && final(self)@ == old(self)@,
            },
    {
        proof {
            use_type_invariant(&*self);
        }
        match apply_keystream(&self.key.key, &self.key.nonce, self.position, buf) {
            Some(bytes) => {
                assert(bytes@ =~= self@.translate(buf@));
                self.position = self.position + buf.len() as u64;
                Ok(bytes)
            },
            None => Err(CipherError::KeystreamExhausted),
        }
    }
}

/// The two sides of a secured connection, made of the two agreed contexts:
/// what comes in is read with the first, what goes out is written with the
/// second, and each side stands at the start of its keystream.
pub fn transport_pair(keys: (ChaChaKey, ChaChaKey)) -> (pair: (Decryptor, Encryptor))
    ensures
        pair.0@ == CipherView::initial(keys.0@),
        pair.1@ == CipherView::initial(keys.1@),
{
    (Decryptor::new(keys.0), Encryptor::new(keys.1))
}

/// Laying the same stretch of keystream over data twice gives the data
/// back.
pub proof fn lemma_keystream_round_trip(
    key: Seq<u8>,
    nonce: Seq<u8>,
    position: int,
    data: Seq<u8>,
)
    ensures
        xor_keystream(key, nonce, position, xor_keystream(key, nonce, position, data)) == data,
{
    let once = xor_keystream(key, nonce, position, data);
    let twice = xor_keystream(key, nonce, position, once);
    assert forall|i: int| 0 <= i < data.len() implies twice[i] == data[i] by {
        let d = data[i];
        let k = chacha20_keystream(key, nonce, position + i);
        assert((d ^ k) ^ k == d) by (bit_vector);
    }
    assert(twice =~= data);
}

/// The keystream does not care how the data is cut up: two pieces that
/// pass one after the other come out as the whole would.
pub proof fn lemma_keystream_is_a_stream(
    key: Seq<u8>,
    nonce: Seq<u8>,
    position: int,
    first: Seq<u8>,
    second: Seq<u8>,
)
    ensures
        xor_keystream(key, nonce, position, first + second) == xor_keystream(
            key,
            nonce,
            position,
            first,
        ) + xor_keystream(key, nonce, position + first.len(), second),
{
    assert(xor_keystream(key, nonce, position, first + second) =~= xor_keystream(
        key,
        nonce,
        position,
        first,
    ) + xor_keystream(key, nonce, position + first.len(), second));
}

/// A reader that stands where a writer stands, with the same key and
/// nonce, reads back what the writer was given, and the two stand in the
/// same place again afterwards.
pub proof fn lemma_reader_undoes_writer(writer: CipherView, reader: CipherView, data: Seq<u8>)
    requires
        writer == reader,
    ensures
        reader.translate(writer.translate(data)) == data,
        writer.translate(data).len() == data.len(),
        reader.advanced(writer.translate(data).len()) == writer.advanced(data.len()),
{
    lemma_keystream_round_trip(writer.context.key, writer.context.nonce, writer.position, data);
}

/// What the writer was given in two pieces, the reader may take in one,
/// and the other way round.
pub proof fn lemma_reader_may_cut_differently(
    writer: CipherView,
    reader: CipherView,
    first: Seq<u8>,
    second: Seq<u8>,
)
    requires
        writer == reader,
    ensures
        reader.translate(
            writer.translate(first) + writer.advanced(first.len()).translate(second),
        ) == first + second,
        reader.translate(writer.translate(first + second).subrange(0, first.len() as int))
            + reader.advanced(first.len()).translate(
            writer.translate(first + second).subrange(
                first.len() as int,
                (first.len() + second.len()) as int,
            ),
        ) == first + second,
{
    let key = writer.context.key;
    let nonce = writer.context.nonce;
    let p = writer.position;
    lemma_keystream_is_a_stream(key, nonce, p, first, second);
    lemma_keystream_round_trip(key, nonce, p, first + second);
    let sealed = writer.translate(first + second);
    let head = sealed.subrange(0, first.len() as int);
    let tail = sealed.subrange(first.len() as int, (first.len() + second.len()) as int);
    assert(sealed =~= head + tail);
    lemma_keystream_is_a_stream(key, nonce, p, head, tail);
}

/// What comes out of one side when pieces pass through it one after the
/// other, each from where the one before left the keystream.
pub open spec fn passed(side: CipherView, pieces: Seq<Seq<u8>>) -> Seq<u8>
    decreases pieces.len(),
{
    if pieces.len() == 0 {
        Seq::empty()
    } else {
        side.translate(pieces.first()) + passed(
            side.advanced(pieces.first().len()),
            pieces.drop_first(),
        )
    }
}

/// Pieces that pass one after the other come out as the whole would.
pub proof fn lemma_pieces_pass_as_the_whole(side: CipherView, pieces: Seq<Seq<u8>>)
    ensures
        passed(side, pieces) == side.translate(pieces.flatten()),
    decreases pieces.len(),
{
    if pieces.len() == 0 {
        assert(side.translate(Seq::<u8>::empty()) =~= Seq::<u8>::empty());
    } else {
        let first = pieces.first();
        let others = pieces.drop_first();
        lemma_pieces_pass_as_the_whole(side.advanced(first.len()), others);
        lemma_keystream_is_a_stream(
            side.context.key,
            side.context.nonce,
            side.position,
            first,
            others.flatten(),
        );
    }
}

/// Whatever a writer was given, in however many pieces, a reader with the
/// same key and nonce that stands where the writer stood reads back, into
/// whatever chunks the bytes were cut on the way: the chunks it returns,
/// put together, are the pieces put together.
pub proof fn lemma_any_cut_reads_back(
    writer: CipherView,
    reader: CipherView,
    pieces: Seq<Seq<u8>>,
    chunks: Seq<Seq<u8>>,
)
    requires
        writer == reader,
        chunks.flatten() == passed(writer, pieces),
    ensures
        passed(reader, chunks) == pieces.flatten(),
{
    lemma_pieces_pass_as_the_whole(writer, pieces);
    lemma_pieces_pass_as_the_whole(reader, chunks);
    lemma_keystream_round_trip(
        writer.context.key,
        writer.context.nonce,
        writer.position,
        pieces.flatten(),
    );
}

} // verus!
