//! Peer-to-peer file transfer: chunking, per-chunk nonces, and the state of
//! both ends (which chunks the sender has served, which the receiver holds).
use vstd::prelude::*;

use crate::bytes::{bytes_eq, copy_range, le32, u32_le};
use crate::crypto::{sha256, spec_sha256};
use crate::text::{decimal_spec, push_decimal, push_str};

verus! {

/// Size of a plaintext chunk.
pub const CHUNK_SIZE: usize = 65536;

/// Size of the authentication tag at the end of an encrypted chunk.
pub const TAG_SIZE: usize = 16;

/// Random bytes at the start of each chunk nonce.
pub const NONCE_BASE_SIZE: usize = 8;

/// The nonce of chunk `index`: the first 8 bytes of the base IV, then the
/// index in little-endian.
pub open spec fn chunk_nonce_spec(base_iv: Seq<u8>, index: u32) -> Seq<u8> {
    base_iv.take(8) + le32(index)
}

/// The nonce of chunk `chunk_index`.
pub fn chunk_nonce(base_iv: &[u8; 12], chunk_index: u32) -> (r: [u8; 12])
    ensures
        r@ == chunk_nonce_spec(base_iv@, chunk_index),
{
    let idx = u32_le(chunk_index);
    let r = [
        base_iv[0],
        base_iv[1],
        base_iv[2],
        base_iv[3],
        base_iv[4],
        base_iv[5],
        base_iv[6],
        base_iv[7],
        idx[0],
        idx[1],
        idx[2],
        idx[3],
    ];
    assert(r@ =~= chunk_nonce_spec(base_iv@, chunk_index));
    r
}

/// Two chunks of a file never share a nonce.
pub proof fn lemma_chunk_nonces_distinct(base_iv: Seq<u8>, i: u32, j: u32)
    requires
        base_iv.len() == 12,
        i != j,
    ensures
        chunk_nonce_spec(base_iv, i) != chunk_nonce_spec(base_iv, j),
{
    let a = chunk_nonce_spec(base_iv, i);
    let b = chunk_nonce_spec(base_iv, j);
    if a == b {
        assert(a[8] == b[8] && a[9] == b[9] && a[10] == b[10] && a[11] == b[11]);
        assert(i == i % 256 + 256 * ((i / 256) % 256) + 65536 * ((i / 65536) % 256) + 16777216 * ((
        i / 16777216) % 256)) by (nonlinear_arith);
        assert(j == j % 256 + 256 * ((j / 256) % 256) + 65536 * ((j / 65536) % 256) + 16777216 * ((
        j / 16777216) % 256)) by (nonlinear_arith);
    }
}

/// Layout of a chunk nonce: bytes 0..8 are the first 8 bytes of the base IV
/// and bytes 8..12 the chunk index, least significant byte first.
pub proof fn lemma_chunk_nonce_layout(base_iv: Seq<u8>, index: u32)
    requires
        base_iv.len() == 12,
    ensures
        chunk_nonce_spec(base_iv, index).len() == 12,
        chunk_nonce_spec(base_iv, index).take(8) == base_iv.take(8),
        chunk_nonce_spec(base_iv, index)[8] == index % 256,
        chunk_nonce_spec(base_iv, index)[9] == (index / 256) % 256,
        chunk_nonce_spec(base_iv, index)[10] == (index / 65536) % 256,
        chunk_nonce_spec(base_iv, index)[11] == index / 16777216,
{
    let n = chunk_nonce_spec(base_iv, index);
    assert(n.take(8) =~= base_iv.take(8));
    assert(index / 16777216 < 256);
}

/// Number of chunks of a file of `len` bytes.
pub open spec fn chunk_count_spec(len: nat) -> nat {
    (len + CHUNK_SIZE - 1) as nat / CHUNK_SIZE as nat
}

/// The plaintext chunks of a file: consecutive pieces of 65536 bytes, the
/// last one shorter when the size is not a multiple.
pub open spec fn chunks_spec(data: Seq<u8>) -> Seq<Seq<u8>> {
    Seq::new(
        chunk_count_spec(data.len()),
        |i: int|
            data.subrange(
                i * CHUNK_SIZE,
                if (i + 1) * CHUNK_SIZE < data.len() {
                    (i + 1) * CHUNK_SIZE
                } else {
                    data.len() as int
                },
            ),
    )
}

/// Concatenation of a list of byte strings.
pub open spec fn concat(parts: Seq<Seq<u8>>) -> Seq<u8>
    decreases parts.len(),
{
    if parts.len() == 0 {
        Seq::empty()
    } else {
        concat(parts.drop_last()) + parts.last()
    }
}

/// Splits a file into its plaintext chunks.
pub fn split_chunks(data: &[u8]) -> (r: Vec<Vec<u8>>)
    ensures
        r@.len() == chunk_count_spec(data@.len()),
        forall|i: int| 0 <= i < r@.len() ==> r@[i]@ == chunks_spec(data@)[i],
        concat(crate::sync::views(r@)) == data@,
        forall|i: int| 0 <= i < r@.len() ==> 0 < #[trigger] r@[i]@.len() <= CHUNK_SIZE,
{
    let mut out: Vec<Vec<u8>> = Vec::new();
    let mut start: usize = 0;
    let ghost mut k: nat = 0;
    while start < data.len()
        invariant
            start <= data@.len(),
            start < data@.len() ==> start == k * CHUNK_SIZE,
            out@.len() == k,
            k <= chunk_count_spec(data@.len()),
            start < data@.len() ==> k < chunk_count_spec(data@.len()),
            start == data@.len() ==> k == chunk_count_spec(data@.len()),
            forall|i: int| 0 <= i < k ==> out@[i]@ == chunks_spec(data@)[i],
            forall|i: int| 0 <= i < k ==> 0 < #[trigger] out@[i]@.len() <= CHUNK_SIZE,
            concat(crate::sync::views(out@)) == data@.take(start as int),
        decreases data.len() - start,
    {
        let end: usize = if data.len() - start > CHUNK_SIZE {
            start + CHUNK_SIZE
        } else {
            data.len()
        };
        let piece = copy_range(data, start, end);
        let ghost before = out@;
        out.push(piece);
        proof {
            assert(crate::sync::views(out@).drop_last() =~= crate::sync::views(before));
            assert(data@.take(end as int) =~= data@.take(start as int) + piece@);
            assert(piece@ == chunks_spec(data@)[k as int]);
            k = k + 1;
            assert((k * CHUNK_SIZE) as int == start + CHUNK_SIZE) by (nonlinear_arith)
                requires
                    start == (k - 1) * CHUNK_SIZE,
            ;
            if end < data@.len() {
                assert(end == k * CHUNK_SIZE);
                assert(k < chunk_count_spec(data@.len())) by (nonlinear_arith)
                    requires
                        end == k * CHUNK_SIZE,
                        end < data@.len(),
                ;
            } else {
                assert(k == chunk_count_spec(data@.len())) by (nonlinear_arith)
                    requires
                        data@.len() <= k * CHUNK_SIZE,
                        data@.len() > (k - 1) * CHUNK_SIZE,
                ;
            }
        }
        start = end;
    }
    proof {
        assert(data@.take(data@.len() as int) =~= data@);
        if data@.len() == 0 {
            assert(chunk_count_spec(0) == 0);
        }
    }
    out
}

/// An encrypted chunk split into ciphertext and tag.
pub fn split_chunk_tag(index: usize, chunk: &[u8]) -> (r: Result<(Vec<u8>, Vec<u8>), String>)
    ensures
        r is Ok <==> chunk@.len() >= TAG_SIZE,
        r matches Err(m) ==> m@ == "Chunk "@ + decimal_spec(index as nat) + " trop court ("@
            + decimal_spec(chunk@.len()) + " bytes)"@,
        r matches Ok((c, t)) ==> c@ + t@ == chunk@ && t@.len() == TAG_SIZE,
{
    if chunk.len() < TAG_SIZE {
        let mut m = String::new();
        push_str(&mut m, "Chunk ");
        push_decimal(&mut m, index as u64);
        push_str(&mut m, " trop court (");
        push_decimal(&mut m, chunk.len() as u64);
        push_str(&mut m, " bytes)");
        return Err(m);
    }
    let split = chunk.len() - TAG_SIZE;
    let c = copy_range(chunk, 0, split);
    let t = copy_range(chunk, split, chunk.len());
    assert(c@ + t@ =~= chunk@);
    Ok((c, t))
}

/// What the sender keeps of an outgoing transfer.
pub struct SenderEntry {
    pub chunks: Vec<Vec<u8>>,
    pub filename: String,
    pub chunks_served: u32,
}

/// What serving a chunk request tells the sender to do.
#[derive(Debug, Clone, Copy, PartialEq, Eq, Structural)]
pub struct ServeOutcome {
    /// This is the first chunk served: tell the interface the transfer began.
    pub started: bool,
    /// Every chunk has now been served: tell the interface and drop the entry.
    pub complete: bool,
}

impl SenderEntry {
    /// Counts one served chunk (wrapping like the original atomic counter)
    /// and says whether the transfer has just started or is complete.
    pub fn record_served(&mut self) -> (r: ServeOutcome)
        requires
            old(self).chunks@.len() <= u32::MAX,
        ensures
            final(self).chunks == old(self).chunks,
            final(self).filename == old(self).filename,
            final(self).chunks_served == (if old(self).chunks_served == u32::MAX {
                0
            } else {
                old(self).chunks_served + 1
            }),
            r.started == (old(self).chunks_served == 0),
            r.complete == (final(self).chunks_served >= old(self).chunks@.len()),
    {
        let before = self.chunks_served;
        let after = before.wrapping_add(1);
        self.chunks_served = after;
        let total = self.chunks.len() as u32;
        ServeOutcome { started: before == 0, complete: after >= total }
    }
}

/// What the receiver keeps of an incoming transfer.
pub struct ReceiverState {
    pub total_chunks: u32,
    pub chunks: Vec<Option<Vec<u8>>>,
    pub file_key: [u8; 32],
    pub file_iv: [u8; 12],
    pub filename: String,
    pub mime: String,
    pub file_hash: Vec<u8>,
    pub my_hash: Vec<u8>,
    pub sender_hash: Vec<u8>,
}

/// Position of the first chunk not received yet.
pub open spec fn first_missing(chunks: Seq<Option<Vec<u8>>>) -> Option<int> {
    if exists|i: int| 0 <= i < chunks.len() && #[trigger] chunks[i] is None {
        Some(
            choose|i: int|
                0 <= i < chunks.len() && chunks[i] is None && forall|j: int|
                    0 <= j < i ==> chunks[j] is Some,
        )
    } else {
        None
    }
}

impl ReceiverState {
    /// A transfer waiting for all of its chunks.
    pub fn new(
        total_chunks: u32,
        file_key: [u8; 32],
        file_iv: [u8; 12],
        filename: String,
        mime: String,
        file_hash: Vec<u8>,
        my_hash: Vec<u8>,
        sender_hash: Vec<u8>,
    ) -> (r: ReceiverState)
        ensures
            r.total_chunks == total_chunks,
            r.chunks@.len() == total_chunks,
            forall|i: int| 0 <= i < total_chunks ==> r.chunks@[i] is None,
            r.file_key == file_key,
            r.file_iv == file_iv,
            r.filename == filename,
            r.mime == mime,
            r.file_hash == file_hash,
            r.my_hash == my_hash,
            r.sender_hash == sender_hash,
    {
        let mut chunks: Vec<Option<Vec<u8>>> = Vec::new();
        let mut i: u32 = 0;
        while i < total_chunks
            invariant
                i <= total_chunks,
                chunks@.len() == i,
                forall|j: int| 0 <= j < i ==> chunks@[j] is None,
            decreases total_chunks - i,
        {
            chunks.push(None);
            i = i + 1;
        }
        ReceiverState {
            total_chunks,
            chunks,
            file_key,
            file_iv,
            filename,
            mime,
            file_hash,
            my_hash,
            sender_hash,
        }
    }

    /// Stores a received chunk: only at a valid index not filled yet, so a
    /// chunk once stored is never replaced.
    pub fn store_chunk(&mut self, index: u32, data: Vec<u8>)
        ensures
            final(self).total_chunks == old(self).total_chunks,
            final(self).file_key == old(self).file_key,
            final(self).file_iv == old(self).file_iv,
            final(self).my_hash == old(self).my_hash,
            final(self).chunks@.len() == old(self).chunks@.len(),
            (index < old(self).chunks@.len() && old(self).chunks@[index as int] is None)
                ==> final(self).chunks@ == old(self).chunks@.update(index as int, Some(data)),
            !(index < old(self).chunks@.len() && old(self).chunks@[index as int] is None)
                ==> final(self).chunks@ == old(self).chunks@,
    {
        let idx = index as usize;
        if idx < self.chunks.len() && self.chunks[idx].is_none() {
            self.chunks.set(idx, Some(data));
        }
    }

    /// The first chunk still missing, which is requested next; `None` when
    /// the file is complete.
    pub fn next_missing(&self) -> (r: Option<usize>)
        ensures
            match r {
                Some(i) => first_missing(self.chunks@) == Some(i as int),
                None => first_missing(self.chunks@) is None,
            },
    {
        let mut i: usize = 0;
        while i < self.chunks.len()
            invariant
                i <= self.chunks@.len(),
                forall|j: int| 0 <= j < i ==> self.chunks@[j] is Some,
            decreases self.chunks.len() - i,
        {
            if self.chunks[i].is_none() {
                proof {
                    assert(0 <= i < self.chunks@.len() && self.chunks@[i as int] is None && forall|
                        j: int,
                    | 0 <= j < i ==> self.chunks@[j] is Some);
                    let f = choose|f: int|
                        0 <= f < self.chunks@.len() && self.chunks@[f] is None && forall|j: int|
                            0 <= j < f ==> self.chunks@[j] is Some;
                    if f < i {
                        assert(self.chunks@[f] is Some);
                    }
                    if f > i {
                        assert(self.chunks@[i as int] is Some);
                    }
                }
                return Some(i);
            }
            i = i + 1;
        }
        None
    }

    /// The received chunks in order, once all are there.
    pub fn received_chunks(&self) -> (r: Vec<Vec<u8>>)
        requires
            forall|i: int| 0 <= i < self.chunks@.len() ==> self.chunks@[i] is Some,
        ensures
            r@.len() == self.chunks@.len(),
            forall|i: int|
                0 <= i < r@.len() ==> (#[trigger] self.chunks@[i] matches Some(c) && c@ == r@[i]@),
    {
        let mut out: Vec<Vec<u8>> = Vec::new();
        let mut i: usize = 0;
        while i < self.chunks.len()
            invariant
                i <= self.chunks@.len(),
                out@.len() == i,
                forall|j: int| 0 <= j < self.chunks@.len() ==> self.chunks@[j] is Some,
                forall|j: int|
                    0 <= j < i ==> (#[trigger] self.chunks@[j] matches Some(c) && c@ == out@[j]@),
            decreases self.chunks.len() - i,
        {
            match &self.chunks[i] {
                Some(c) => {
                    let copy = c.clone();
                    assert(copy@ =~= c@);
                    out.push(copy);
                },
                None => {},
            }
            i = i + 1;
        }
        out
    }
}

/// Checks the parameters of a download before it starts.
pub fn validate_download(transfer_id: &[u8], file_key: &[u8], file_iv: &[u8], total_chunks: u32) -> (r: Result<
    ([u8; 16], [u8; 32], [u8; 12]),
    String,
>)
    ensures
        transfer_id@.len() != 16 ==> (r matches Err(m) && m@ == "transfer_id invalide"@),
        transfer_id@.len() == 16 && file_key@.len() != 32 ==> (r matches Err(m) && m@
            == "file_key doit faire 32 bytes"@),
        transfer_id@.len() == 16 && file_key@.len() == 32 && file_iv@.len() != 12 ==> (r matches Err(
            m,
        ) && m@ == "file_iv doit faire 12 bytes"@),
        transfer_id@.len() == 16 && file_key@.len() == 32 && file_iv@.len() == 12 && total_chunks
            == 0 ==> (r matches Err(m) && m@ == "total_chunks ne peut pas être zéro"@),
        r matches Ok((t, k, v)) ==> t@ == transfer_id@ && k@ == file_key@ && v@ == file_iv@
            && total_chunks > 0,
{
    if transfer_id.len() != 16 {
        return Err("transfer_id invalide".to_owned());
    }
    if file_key.len() != 32 {
        return Err("file_key doit faire 32 bytes".to_owned());
    }
    if file_iv.len() != 12 {
        return Err("file_iv doit faire 12 bytes".to_owned());
    }
    if total_chunks == 0 {
        return Err("total_chunks ne peut pas être zéro".to_owned());
    }
    let t = transfer_id_array(transfer_id);
    let k = crate::bytes::to_array32(file_key);
    let v = crate::bytes::to_array12(file_iv);
    Ok((t, k, v))
}

/// The 16-byte id of a transfer.
pub fn transfer_id_array(s: &[u8]) -> (r: [u8; 16])
    requires
        s@.len() == 16,
    ensures
        r@ == s@,
{
    let mut a = [0u8; 16];
    let mut i: usize = 0;
    while i < 16
        invariant
            i <= 16,
            s@.len() == 16,
            forall|j: int| 0 <= j < i ==> a@[j] == s@[j],
        decreases 16 - i,
    {
        a[i] = s[i];
        i = i + 1;
    }
    assert(a@ =~= s@);
    a
}

/// The id of a transfer to cancel, which must be 16 bytes.
pub fn cancel_transfer_id(transfer_id: &[u8]) -> (r: Result<[u8; 16], String>)
    ensures
        transfer_id@.len() == 16 <==> r is Ok,
        r matches Ok(t) ==> t@ == transfer_id@,
        r matches Err(m) ==> m@ == "transfer_id invalide"@,
{
    if transfer_id.len() != 16 {
        return Err("transfer_id invalide".to_owned());
    }
    Ok(transfer_id_array(transfer_id))
}

/// The sender began serving a file.
#[derive(Debug, Clone)]
pub struct FileSendStartedEvent {
    pub transfer_id: Vec<u8>,
    pub filename: String,
    pub total_chunks: u32,
}

/// The sender served one more chunk.
#[derive(Debug, Clone)]
pub struct FileSendProgressEvent {
    pub transfer_id: Vec<u8>,
    pub chunks_served: u32,
    pub total_chunks: u32,
}

/// The sender served every chunk.
#[derive(Debug, Clone)]
pub struct FileSendCompleteEvent {
    pub transfer_id: Vec<u8>,
    pub filename: String,
}

/// The receiver has the whole file.
#[derive(Debug, Clone)]
pub struct FileCompleteEvent {
    pub transfer_id: Vec<u8>,
    pub filename: String,
    pub mime: String,
    pub data: Vec<u8>,
}

/// A transfer failed.
#[derive(Debug, Clone)]
pub struct FileTransferErrorEvent {
    pub transfer_id: Vec<u8>,
    pub error: String,
}

/// What the sender announces of a prepared transfer.
#[derive(Debug, Clone)]
pub struct PreparedTransfer {
    pub transfer_id: Vec<u8>,
    pub file_key: Vec<u8>,
    pub file_iv: Vec<u8>,
    pub file_hash: Vec<u8>,
    pub chunk_count: u32,
    pub chunk_size: u32,
}

/// The SHA-256 digest of a file, announced with its transfer.
pub fn sha256_of(data: &[u8]) -> (r: Vec<u8>)
    ensures
        r@ == spec_sha256(data@),
{
    let d = sha256(data);
    copy_range(&d, 0, 32)
}

/// The message of a chunk whose tag does not verify.
pub open spec fn bad_tag_message(index: nat) -> Seq<char> {
    "Tag invalide pour chunk "@ + decimal_spec(index) + ": fichier corrompu ou altéré"@
}

/// The error of chunk `index` when its tag does not verify.
pub fn bad_tag_error(index: usize) -> (r: String)
    ensures
        r@ == bad_tag_message(index as nat),
{
    let mut m = String::new();
    push_str(&mut m, "Tag invalide pour chunk ");
    push_decimal(&mut m, index as u64);
    push_str(&mut m, ": fichier corrompu ou altéré");
    m
}

/// The message of a reassembled file whose digest is not the announced one.
pub open spec fn bad_file_hash_message() -> Seq<char> {
    "Hash du fichier invalide: données corrompues"@
}

/// Accepts a reassembled file only when its SHA-256 digest is the one the
/// sender announced.
pub fn check_file_hash(plaintext: Vec<u8>, expected_hash: &[u8]) -> (r: Result<Vec<u8>, String>)
    ensures
        r is Ok <==> spec_sha256(plaintext@) == expected_hash@,
        r matches Ok(p) ==> p@ == plaintext@,
        r matches Err(m) ==> m@ == bad_file_hash_message(),
{
    let digest = sha256(plaintext.as_slice());
    if bytes_eq(&digest, expected_hash) {
        Ok(plaintext)
    } else {
        Err("Hash du fichier invalide: données corrompues".to_owned())
    }
}

} // verus!
