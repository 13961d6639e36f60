//! # Erasure coding and recovery
//!
//! Shreds are logically grouped into erasure sets. Each set holds
//! `num_data` sequential data shreds and `num_coding` sequential coding
//! (parity) shreds. The coding shreds are computed from the data shreds with
//! a Reed-Solomon code over GF(2^8); any `num_data` of the shreds of a set
//! are enough to recover its data shreds.
//!
//! The Reed-Solomon arithmetic is done by the `reed-solomon-erasure` crate.

use vstd::prelude::*;
use reed_solomon_erasure::galois_8::Field as Gf8;
use reed_solomon_erasure::ReedSolomon;

verus! {

/// A Reed-Solomon codec over GF(2^8), made for a fixed number of data and
/// parity shards (`rs_data_shards`, `rs_parity_shards`). Its encoding
/// matrix is opaque; the contracts speak only of the shard counts.
#[verifier::external_body]
#[derive(Debug)]
pub struct Codec {
    inner: ReedSolomon<Gf8>,
}

#[verifier::external_type_specification]
pub struct ExRsError(reed_solomon_erasure::Error);

/// The most shards (data and coding together) that a GF(2^8) code can have.
pub const MAX_SHARDS: usize = 256;

/// The number of data shards a codec was made with.
pub uninterp spec fn rs_data_shards(codec: Codec) -> nat;

/// The number of parity shards a codec was made with.
pub uninterp spec fn rs_parity_shards(codec: Codec) -> nat;

/// The parity shards that the code with `data_count` data and `parity_count`
/// parity shards computes from `data`.
pub uninterp spec fn rs_parity(data_count: nat, parity_count: nat, data: Seq<Seq<u8>>) -> Seq<Seq<u8>>;

/// The data shards that reconstruction computes from `shards`, of which those
/// flagged in `present` are known.
pub uninterp spec fn rs_reconstructed_data(
    data_count: nat,
    parity_count: nat,
    shards: Seq<Seq<u8>>,
    present: Seq<bool>,
) -> Seq<Seq<u8>>;

/// Errors of the erasure code, one for one with `reed_solomon_erasure::Error`.
#[derive(Clone, Copy, PartialEq, Eq, Debug)]
pub enum ErasureError {
    TooFewShards,
    TooManyShards,
    TooFewDataShards,
    TooManyDataShards,
    TooFewParityShards,
    TooManyParityShards,
    TooFewBufferShards,
    TooManyBufferShards,
    IncorrectShardSize,
    TooFewShardsPresent,
    EmptyShard,
    InvalidShardFlags,
    InvalidIndex,
}

/// The library's error for an error of the Reed-Solomon crate.
pub open spec fn spec_erasure_error(e: reed_solomon_erasure::Error) -> ErasureError {
    match e {
        reed_solomon_erasure::Error::TooFewShards => ErasureError::TooFewShards,
        reed_solomon_erasure::Error::TooManyShards => ErasureError::TooManyShards,
        reed_solomon_erasure::Error::TooFewDataShards => ErasureError::TooFewDataShards,
        reed_solomon_erasure::Error::TooManyDataShards => ErasureError::TooManyDataShards,
        reed_solomon_erasure::Error::TooFewParityShards => ErasureError::TooFewParityShards,
        reed_solomon_erasure::Error::TooManyParityShards => ErasureError::TooManyParityShards,
        reed_solomon_erasure::Error::TooFewBufferShards => ErasureError::TooFewBufferShards,
        reed_solomon_erasure::Error::TooManyBufferShards => ErasureError::TooManyBufferShards,
        reed_solomon_erasure::Error::IncorrectShardSize => ErasureError::IncorrectShardSize,
        reed_solomon_erasure::Error::TooFewShardsPresent => ErasureError::TooFewShardsPresent,
        reed_solomon_erasure::Error::EmptyShard => ErasureError::EmptyShard,
        reed_solomon_erasure::Error::InvalidShardFlags => ErasureError::InvalidShardFlags,
        reed_solomon_erasure::Error::InvalidIndex => ErasureError::InvalidIndex,
    }
}

/// Map an error of the Reed-Solomon crate to the library's error.
pub fn erasure_error(e: reed_solomon_erasure::Error) -> (r: ErasureError)
    ensures
        r == spec_erasure_error(e),
{
    match e {
        reed_solomon_erasure::Error::TooFewShards => ErasureError::TooFewShards,
        reed_solomon_erasure::Error::TooManyShards => ErasureError::TooManyShards,
        reed_solomon_erasure::Error::TooFewDataShards => ErasureError::TooFewDataShards,
        reed_solomon_erasure::Error::TooManyDataShards => ErasureError::TooManyDataShards,
        reed_solomon_erasure::Error::TooFewParityShards => ErasureError::TooFewParityShards,
        reed_solomon_erasure::Error::TooManyParityShards => ErasureError::TooManyParityShards,
        reed_solomon_erasure::Error::TooFewBufferShards => ErasureError::TooFewBufferShards,
        reed_solomon_erasure::Error::TooManyBufferShards => ErasureError::TooManyBufferShards,
        reed_solomon_erasure::Error::IncorrectShardSize => ErasureError::IncorrectShardSize,
        reed_solomon_erasure::Error::TooFewShardsPresent => ErasureError::TooFewShardsPresent,
        reed_solomon_erasure::Error::EmptyShard => ErasureError::EmptyShard,
        reed_solomon_erasure::Error::InvalidShardFlags => ErasureError::InvalidShardFlags,
        reed_solomon_erasure::Error::InvalidIndex => ErasureError::InvalidIndex,
    }
}

// ---------------------------------------------------------------------------
// What the codec checks before it works

/// Why a code with these shard counts cannot be made, if it cannot.
pub open spec fn new_check(data_count: nat, parity_count: nat) -> Option<ErasureError> {
    if data_count == 0 {
        Some(ErasureError::TooFewDataShards)
    } else if parity_count == 0 {
        Some(ErasureError::TooFewParityShards)
    } else if data_count + parity_count > MAX_SHARDS {
        Some(ErasureError::TooManyShards)
    } else {
        None
    }
}

/// Whether all the shards are as long as the first one and that is not empty;
/// the error that the codec reports otherwise.
pub open spec fn uniform_check(shards: Seq<Seq<u8>>) -> Option<ErasureError> {
    if shards[0].len() == 0 {
        Some(ErasureError::EmptyShard)
    } else if exists|i: int| 0 <= i < shards.len() && #[trigger] shards[i].len() != shards[0].len() {
        Some(ErasureError::IncorrectShardSize)
    } else {
        None
    }
}

/// Why encoding `data` into `parity` fails, if it does.
pub open spec fn encode_check(
    data_count: nat,
    parity_count: nat,
    data: Seq<Seq<u8>>,
    parity: Seq<Seq<u8>>,
) -> Option<ErasureError> {
    if data.len() < data_count {
        Some(ErasureError::TooFewDataShards)
    } else if data.len() > data_count {
        Some(ErasureError::TooManyDataShards)
    } else if parity.len() < parity_count {
        Some(ErasureError::TooFewParityShards)
    } else if parity.len() > parity_count {
        Some(ErasureError::TooManyParityShards)
    } else if uniform_check(data) is Some {
        uniform_check(data)
    } else if uniform_check(parity) is Some {
        uniform_check(parity)
    } else if data[0].len() != parity[0].len() {
        Some(ErasureError::IncorrectShardSize)
    } else {
        None
    }
}

/// How many shards are flagged present.
pub open spec fn count_present(present: Seq<bool>) -> nat
    decreases present.len(),
{
    if present.len() == 0 {
        0
    } else {
        count_present(present.drop_last()) + if present.last() {
            1nat
        } else {
            0nat
        }
    }
}

/// Scanning the shards from index `i` on, with `seen` the length of the
/// present shards before it: the first present shard that is empty or
/// differs in length from those before it.
pub open spec fn present_check(shards: Seq<Seq<u8>>, present: Seq<bool>, i: int, seen: Option<nat>) -> Option<ErasureError>
    decreases shards.len() - i,
{
    if i < 0 || i >= shards.len() || i >= present.len() {
        None
    } else if present[i] {
        if shards[i].len() == 0 {
            Some(ErasureError::EmptyShard)
        } else if seen is Some && seen->0 != shards[i].len() {
            Some(ErasureError::IncorrectShardSize)
        } else {
            present_check(shards, present, i + 1, Some(shards[i].len()))
        }
    } else {
        present_check(shards, present, i + 1, seen)
    }
}

/// Some missing data shard differs in length from the present shards.
pub open spec fn missing_data_misfit(data_count: nat, shards: Seq<Seq<u8>>, present: Seq<bool>) -> bool {
    exists|i: int, j: int|
        0 <= i < data_count && 0 <= j < shards.len() && !present[i] && present[j]
            && #[trigger] shards[i].len() != #[trigger] shards[j].len()
}

/// Why reconstructing the data shards fails, if it does.
pub open spec fn reconstruct_check(
    data_count: nat,
    parity_count: nat,
    shards: Seq<Seq<u8>>,
    present: Seq<bool>,
) -> Option<ErasureError> {
    if shards.len() < data_count + parity_count {
        Some(ErasureError::TooFewShards)
    } else if shards.len() > data_count + parity_count {
        Some(ErasureError::TooManyShards)
    } else if present_check(shards, present, 0, None) is Some {
        present_check(shards, present, 0, None)
    } else if count_present(present) == data_count + parity_count {
        None
    } else if count_present(present) < data_count {
        Some(ErasureError::TooFewShardsPresent)
    } else if missing_data_misfit(data_count, shards, present) {
        Some(ErasureError::IncorrectShardSize)
    } else {
        None
    }
}

/// The shards after a successful reconstruction: missing data shards are
/// filled in, every other shard is left as it was.
pub open spec fn reconstructed(
    data_count: nat,
    parity_count: nat,
    shards: Seq<Seq<u8>>,
    present: Seq<bool>,
) -> Seq<Seq<u8>> {
    Seq::new(
        shards.len(),
        |i: int|
            if i < data_count && !present[i] {
                rs_reconstructed_data(data_count, parity_count, shards, present)[i]
            } else {
                shards[i]
            },
    )
}

/// The data shards and the parity shards computed from them.
pub open spec fn codeword(data_count: nat, parity_count: nat, data: Seq<Seq<u8>>) -> Seq<Seq<u8>> {
    data + rs_parity(data_count, parity_count, data)
}

/// `shards` agree, where `present` flags them, with the codeword of `data`:
/// `data` holds `data_count` shards of the length of the present shards.
pub open spec fn matches_codeword(
    data_count: nat,
    parity_count: nat,
    data: Seq<Seq<u8>>,
    shards: Seq<Seq<u8>>,
    present: Seq<bool>,
) -> bool {
    &&& data.len() == data_count
    &&& shards.len() == data_count + parity_count
    &&& present.len() == shards.len()
    &&& forall|i: int, j: int|
        0 <= i < data_count && 0 <= j < shards.len() && present[j] ==> #[trigger] data[i].len()
            == #[trigger] shards[j].len()
    &&& forall|i: int|
        0 <= i < shards.len() && present[i] ==> #[trigger] shards[i] == codeword(
            data_count,
            parity_count,
            data,
        )[i]
}

// ---------------------------------------------------------------------------
// Views of shard vectors

/// The bytes of each shard.
pub open spec fn shards_view(s: Seq<Vec<u8>>) -> Seq<Seq<u8>> {
    s.map_values(|v: Vec<u8>| v@)
}

/// The bytes of each flagged block.
pub open spec fn blocks_bytes(b: Seq<(Vec<u8>, bool)>) -> Seq<Seq<u8>> {
    b.map_values(|x: (Vec<u8>, bool)| x.0@)
}

/// The flag of each block: whether its shard is present.
pub open spec fn blocks_present(b: Seq<(Vec<u8>, bool)>) -> Seq<bool> {
    b.map_values(|x: (Vec<u8>, bool)| x.1)
}

// ---------------------------------------------------------------------------
// The calls into the Reed-Solomon crate

/// `ReedSolomon::new`: fails with `TooFewDataShards` when `data_shards == 0`,
/// else `TooFewParityShards` when `parity_shards == 0`, else `TooManyShards`
/// when there are more than 256 shards in all; otherwise a codec made with
/// these counts.
#[verifier::external_body]
fn rs_new(data_shards: usize, parity_shards: usize) -> (r: Result<Codec, reed_solomon_erasure::Error>)
    requires
        data_shards + parity_shards <= usize::MAX,
    ensures
        match r {
            Ok(codec) => {
                &&& new_check(data_shards as nat, parity_shards as nat) is None
                &&& rs_data_shards(codec) == data_shards
                &&& rs_parity_shards(codec) == parity_shards
            },
            Err(e) => new_check(data_shards as nat, parity_shards as nat) == Some(
                spec_erasure_error(e),
            ),
        },
{
    match ReedSolomon::<Gf8>::new(data_shards, parity_shards) {
        Ok(inner) => Ok(Codec { inner }),
        Err(e) => Err(e),
    }
}

/// `ReedSolomon::encode_sep`: checks the shard counts and sizes in the order
/// that `encode_check` follows and reports the first failure, leaving
/// `parity` untouched; otherwise overwrites the parity shards with the parity
/// of `data` (named by `rs_parity`). Shard lengths never change.
#[verifier::external_body]
fn rs_encode_sep(codec: &Codec, data: &[Vec<u8>], parity: &mut Vec<Vec<u8>>) -> (r: Result<(), reed_solomon_erasure::Error>)
    ensures
        final(parity)@.len() == old(parity)@.len(),
        forall|i: int| 0 <= i < old(parity)@.len() ==> #[trigger] final(parity)@[i]@.len() == old(parity)@[i]@.len(),
        match r {
            Ok(()) => {
                &&& encode_check(rs_data_shards(*codec), rs_parity_shards(*codec), shards_view(data@), shards_view(old(parity)@)) is None
                &&& shards_view(final(parity)@) == rs_parity(rs_data_shards(*codec), rs_parity_shards(*codec), shards_view(data@))
            },
            Err(e) => {
                &&& encode_check(rs_data_shards(*codec), rs_parity_shards(*codec), shards_view(data@), shards_view(old(parity)@)) == Some(spec_erasure_error(e))
                &&& final(parity)@ == old(parity)@
            },
        },
{
    codec.inner.encode_sep(data, parity.as_mut_slice())
}

/// `ReedSolomon::reconstruct_data` on `(shard, present)` pairs: checks the
/// blocks in the order that `reconstruct_check` follows and reports the first
/// failure, touching nothing; otherwise fills in the missing data shards
/// (named by `rs_reconstructed_data`) and leaves present shards and missing
/// parity shards as they were. Where the present shards agree with the
/// codeword of some data, the data shards come out equal to that data: any
/// `data_count` shards of a codeword determine it (the code is built from a
/// Vandermonde matrix for this purpose).
#[verifier::external_body]
fn rs_reconstruct_data(codec: &Codec, blocks: &mut Vec<(Vec<u8>, bool)>) -> (r: Result<(), reed_solomon_erasure::Error>)
    ensures
        blocks_present(final(blocks)@) == blocks_present(old(blocks)@),
        match r {
            Ok(()) => {
                &&& reconstruct_check(rs_data_shards(*codec), rs_parity_shards(*codec), blocks_bytes(old(blocks)@), blocks_present(old(blocks)@)) is None
                &&& blocks_bytes(final(blocks)@) == Seq::new(
                    old(blocks)@.len(),
                    |i: int|
                        if i < rs_data_shards(*codec) && !old(blocks)@[i].1 {
                            rs_reconstructed_data(rs_data_shards(*codec), rs_parity_shards(*codec), blocks_bytes(old(blocks)@), blocks_present(old(blocks)@))[i]
                        } else {
                            old(blocks)@[i].0@
                        },
                )
                &&& forall|data: Seq<Seq<u8>>|
                    #[trigger] matches_codeword(rs_data_shards(*codec), rs_parity_shards(*codec), data, blocks_bytes(old(blocks)@), blocks_present(old(blocks)@))
                        ==> blocks_bytes(final(blocks)@).subrange(0, rs_data_shards(*codec) as int) == data
            },
            Err(e) => {
                &&& reconstruct_check(rs_data_shards(*codec), rs_parity_shards(*codec), blocks_bytes(old(blocks)@), blocks_present(old(blocks)@)) == Some(spec_erasure_error(e))
                &&& final(blocks)@ == old(blocks)@
            },
        },
{
    codec.inner.reconstruct_data(blocks.as_mut_slice())
}

/// `Clone for ReedSolomon`: the source makes a new codec with the same data
/// and parity shard counts (`ReedSolomon::new(self.data_shard_count,
/// self.parity_shard_count)`).
#[verifier::external_body]
fn rs_clone(codec: &Codec) -> (r: Codec)
    ensures
        rs_data_shards(r) == rs_data_shards(*codec),
        rs_parity_shards(r) == rs_parity_shards(*codec),
{
    Codec { inner: codec.inner.clone() }
}

// ---------------------------------------------------------------------------
// Configuration and sessions

/// The shape of an erasure set: how many data and coding shreds it holds.
#[derive(Clone, Copy, PartialEq, Eq, Debug)]
pub struct ErasureConfig {
    num_data: usize,
    num_coding: usize,
}

impl View for ErasureConfig {
    /// (number of data shreds, number of coding shreds)
    type V = (usize, usize);

    closed spec fn view(&self) -> (usize, usize) {
        (self.num_data, self.num_coding)
    }
}

impl ErasureConfig {
    pub fn new(num_data: usize, num_coding: usize) -> (r: ErasureConfig)
        ensures
            r@ == (num_data, num_coding),
    {
        ErasureConfig { num_data, num_coding }
    }

    pub fn num_data(self) -> (r: usize)
        ensures
            r == self@.0,
    {
        self.num_data
    }

    pub fn num_coding(self) -> (r: usize)
        ensures
            r == self@.1,
    {
        self.num_coding
    }
}

/// An erasure "session": a Reed-Solomon code with a particular number of data
/// and coding shards.
#[derive(Debug)]
pub struct Session(Codec);

impl Clone for Session {
    /// A session with the same numbers of data and coding shards.
    fn clone(&self) -> (r: Session)
        ensures
            r.data_count() == self.data_count(),
            r.coding_count() == self.coding_count(),
    {
        Session(rs_clone(&self.0))
    }
}

impl Session {
    /// Number of data shards of the code.
    pub closed spec fn data_count(&self) -> nat {
        rs_data_shards(self.0)
    }

    /// Number of coding (parity) shards of the code.
    pub closed spec fn coding_count(&self) -> nat {
        rs_parity_shards(self.0)
    }

    /// A code with `data_count` data and `coding_count` coding shards; fails
    /// when either is zero or they sum to more than 256.
    pub fn new(data_count: usize, coding_count: usize) -> (r: Result<Session, ErasureError>)
        requires
            data_count + coding_count <= usize::MAX,
        ensures
            match r {
                Ok(s) => new_check(data_count as nat, coding_count as nat) is None
                    && s.data_count() == data_count && s.coding_count() == coding_count,
                Err(e) => new_check(data_count as nat, coding_count as nat) == Some(e),
            },
    {
        match rs_new(data_count, coding_count) {
            Ok(codec) => Ok(Session(codec)),
            Err(e) => Err(erasure_error(e)),
        }
    }

    /// A code of the shape `config` describes.
    pub fn new_from_config(config: &ErasureConfig) -> (r: Result<Session, ErasureError>)
        requires
            config@.0 + config@.1 <= usize::MAX,
        ensures
            match r {
                Ok(s) => new_check(config@.0 as nat, config@.1 as nat) is None
                    && s.data_count() == config@.0 && s.coding_count() == config@.1,
                Err(e) => new_check(config@.0 as nat, config@.1 as nat) == Some(e),
            },
    {
        match rs_new(config.num_data, config.num_coding) {
            Ok(codec) => Ok(Session(codec)),
            Err(e) => Err(erasure_error(e)),
        }
    }

    /// Create coding blocks by overwriting `parity`.
    pub fn encode(&self, data: &[Vec<u8>], parity: &mut Vec<Vec<u8>>) -> (r: Result<(), ErasureError>)
        ensures
            final(parity)@.len() == old(parity)@.len(),
            encode_post(
                self.data_count(),
                self.coding_count(),
                shards_view(data@),
                shards_view(old(parity)@),
                r,
                shards_view(final(parity)@),
            ),
    {
        let ghost before = parity@;
        let r = rs_encode_sep(&self.0, data, parity);
        assert(shards_view(parity@).len() == shards_view(before).len());
        match r {
            Ok(()) => Ok(()),
            Err(e) => Err(erasure_error(e)),
        }
    }

    /// Recover data + coding blocks into data blocks: the missing data
    /// shards (flag `false`) are filled in from the present ones.
    pub fn decode_blocks(&self, blocks: &mut Vec<(Vec<u8>, bool)>) -> (r: Result<(), ErasureError>)
        ensures
            decode_post(self.data_count(), self.coding_count(), old(blocks)@, r, final(blocks)@),
    {
        let ghost before = blocks@;
        match rs_reconstruct_data(&self.0, blocks) {
            Ok(()) => {
                assert(blocks_bytes(blocks@) =~= reconstructed(
                    self.data_count(),
                    self.coding_count(),
                    blocks_bytes(before),
                    blocks_present(before),
                ));
                Ok(())
            },
            Err(e) => Err(erasure_error(e)),
        }
    }
}

/// What encoding `data` over the parity shards `before`, leaving them as
/// `after` with result `r`, means: each shard keeps its length; on success
/// the parity shards are those of `data`, on failure they are untouched and
/// the error is the first one `encode_check` finds.
pub open spec fn encode_post(
    data_count: nat,
    parity_count: nat,
    data: Seq<Seq<u8>>,
    before: Seq<Seq<u8>>,
    r: Result<(), ErasureError>,
    after: Seq<Seq<u8>>,
) -> bool {
    &&& after.len() == before.len()
    &&& forall|i: int| 0 <= i < before.len() ==> #[trigger] after[i].len() == before[i].len()
    &&& match r {
        Ok(()) => {
            &&& encode_check(data_count, parity_count, data, before) is None
            &&& after == rs_parity(data_count, parity_count, data)
        },
        Err(e) => {
            &&& encode_check(data_count, parity_count, data, before) == Some(e)
            &&& after == before
        },
    }
}

/// What decoding `before` into `after` with result `r` means: the flags stay;
/// on success the missing data shards are filled in (with the data of any
/// codeword that the present shards agree with), on failure nothing changes
/// and the error is the first one `reconstruct_check` finds.
pub open spec fn decode_post(
    data_count: nat,
    parity_count: nat,
    before: Seq<(Vec<u8>, bool)>,
    r: Result<(), ErasureError>,
    after: Seq<(Vec<u8>, bool)>,
) -> bool {
    &&& blocks_present(after) == blocks_present(before)
    &&& match r {
        Ok(()) => {
            &&& reconstruct_check(data_count, parity_count, blocks_bytes(before), blocks_present(before)) is None
            &&& blocks_bytes(after) == reconstructed(data_count, parity_count, blocks_bytes(before), blocks_present(before))
            &&& forall|data: Seq<Seq<u8>>|
                #[trigger] matches_codeword(data_count, parity_count, data, blocks_bytes(before), blocks_present(before))
                    ==> blocks_bytes(after).subrange(0, data_count as int) == data
        },
        Err(e) => {
            &&& reconstruct_check(data_count, parity_count, blocks_bytes(before), blocks_present(before)) == Some(e)
            &&& after == before
        },
    }
}

// ---------------------------------------------------------------------------
// Laws

/// When every present shard has the same nonzero length, the scan for
/// badly sized shards finds nothing.
proof fn lemma_present_check_uniform(
    shards: Seq<Seq<u8>>,
    present: Seq<bool>,
    i: int,
    seen: Option<nat>,
    len: nat,
)
    requires
        0 <= i,
        len > 0,
        shards.len() == present.len(),
        forall|j: int| 0 <= j < shards.len() && present[j] ==> #[trigger] shards[j].len() == len,
        seen is None || seen == Some(len),
    ensures
        present_check(shards, present, i, seen) is None,
    decreases shards.len() - i,
{
    if i < shards.len() {
        if present[i] {
            lemma_present_check_uniform(shards, present, i + 1, Some(len), len);
        } else {
            lemma_present_check_uniform(shards, present, i + 1, seen, len);
        }
    }
}

/// Encoding and then decoding restores the data: when the coding shards were
/// computed from the data shards by a successful `encode`, and `decode_blocks`
/// is run on the data and coding shards with at least `data_count` of them
/// present (a missing data shard keeping the shard length, whatever it
/// holds), decoding succeeds and the data shards come out equal to the
/// original data.
pub proof fn lemma_decode_recovers_encoded(
    data_count: nat,
    parity_count: nat,
    data: Seq<Seq<u8>>,
    parity_before: Seq<Seq<u8>>,
    parity: Seq<Seq<u8>>,
    before: Seq<(Vec<u8>, bool)>,
    r: Result<(), ErasureError>,
    after: Seq<(Vec<u8>, bool)>,
)
    requires
        new_check(data_count, parity_count) is None,
        encode_post(data_count, parity_count, data, parity_before, Ok(()), parity),
        before.len() == data_count + parity_count,
        forall|i: int|
            0 <= i < before.len() && before[i].1 ==> #[trigger] before[i].0@ == (data + parity)[i],
        forall|i: int|
            0 <= i < data_count && !before[i].1 ==> #[trigger] before[i].0@.len() == data[0].len(),
        count_present(blocks_present(before)) >= data_count,
        decode_post(data_count, parity_count, before, r, after),
    ensures
        r is Ok,
        blocks_bytes(after).subrange(0, data_count as int) == data,
{
    let shards = blocks_bytes(before);
    let present = blocks_present(before);
    let len = data[0].len();
    assert(uniform_check(data) is None);
    assert(uniform_check(parity_before) is None);
    assert forall|j: int| 0 <= j < shards.len() && present[j] implies #[trigger] shards[j].len() == len by {
        if j < data_count {
            assert(shards[j] == data[j]);
        } else {
            assert(shards[j] == parity[j - data_count]);
            assert(parity_before[j - data_count].len() == parity_before[0].len());
        }
    }
    lemma_present_check_uniform(shards, present, 0, None, len);
    assert(!missing_data_misfit(data_count, shards, present));
    assert(reconstruct_check(data_count, parity_count, shards, present) is None);
    assert forall|i: int, j: int|
        0 <= i < data_count && 0 <= j < shards.len() && present[j] implies #[trigger] data[i].len()
        == #[trigger] shards[j].len() by {
        assert(data[i].len() == data[0].len());
    }
    assert forall|i: int| 0 <= i < shards.len() && present[i] implies #[trigger] shards[i] == codeword(
        data_count,
        parity_count,
        data,
    )[i] by {
        assert(before[i].0@ == (data + parity)[i]);
    }
    assert(matches_codeword(data_count, parity_count, data, shards, present));
}


/// A code can be made exactly when it has at least one data shard, at least
/// one parity shard and at most 256 shards in all.
pub proof fn lemma_new_check_accepts(data_count: nat, parity_count: nat)
    ensures
        new_check(data_count, parity_count) is None <==> (1 <= data_count && 1 <= parity_count
            && data_count + parity_count <= 256),
        data_count == 0 ==> new_check(data_count, parity_count) == Some(ErasureError::TooFewDataShards),
        data_count >= 1 && parity_count == 0 ==> new_check(data_count, parity_count) == Some(
            ErasureError::TooFewParityShards,
        ),
        data_count >= 1 && parity_count >= 1 && data_count + parity_count > 256 ==> new_check(
            data_count,
            parity_count,
        ) == Some(ErasureError::TooManyShards),
{
}

/// Encoding is accepted exactly when there are `data_count` data shards and
/// `parity_count` parity shards, all of one nonzero length.
pub proof fn lemma_encode_check_accepts(
    data_count: nat,
    parity_count: nat,
    data: Seq<Seq<u8>>,
    parity: Seq<Seq<u8>>,
)
    requires
        data_count >= 1,
        parity_count >= 1,
    ensures
        encode_check(data_count, parity_count, data, parity) is None <==> {
            &&& data.len() == data_count
            &&& parity.len() == parity_count
            &&& data[0].len() > 0
            &&& forall|i: int| 0 <= i < data.len() ==> #[trigger] data[i].len() == data[0].len()
            &&& forall|i: int| 0 <= i < parity.len() ==> #[trigger] parity[i].len() == data[0].len()
        },
{
    if data.len() == data_count && parity.len() == parity_count && data[0].len() > 0
        && (forall|i: int| 0 <= i < data.len() ==> #[trigger] data[i].len() == data[0].len())
        && (forall|i: int| 0 <= i < parity.len() ==> #[trigger] parity[i].len() == data[0].len()) {
        assert(parity[0].len() == data[0].len());
    }
    if encode_check(data_count, parity_count, data, parity) is None {
        assert forall|i: int| 0 <= i < parity.len() implies #[trigger] parity[i].len() == data[0].len() by {
            assert(parity[i].len() == parity[0].len());
        }
    }
}

/// When every present shard has one nonzero length, reconstruction is
/// accepted exactly when the block count is right and either every shard is
/// present or at least `data_count` are and each missing data shard has that
/// length.
pub proof fn lemma_reconstruct_check_accepts(
    data_count: nat,
    parity_count: nat,
    shards: Seq<Seq<u8>>,
    present: Seq<bool>,
    len: nat,
)
    requires
        len > 0,
        shards.len() == present.len(),
        forall|j: int| 0 <= j < shards.len() && present[j] ==> #[trigger] shards[j].len() == len,
        exists|j: int| 0 <= j < shards.len() && present[j],
    ensures
        reconstruct_check(data_count, parity_count, shards, present) is None <==> {
            &&& shards.len() == data_count + parity_count
            &&& (count_present(present) == data_count + parity_count || (count_present(present)
                >= data_count && forall|i: int|
                0 <= i < data_count && !present[i] ==> #[trigger] shards[i].len() == len))
        },
{
    lemma_present_check_uniform(shards, present, 0, None, len);
    let j = choose|j: int| 0 <= j < shards.len() && present[j];
    if shards.len() == data_count + parity_count && count_present(present) >= data_count
        && (forall|i: int| 0 <= i < data_count && !present[i] ==> #[trigger] shards[i].len() == len) {
        assert(!missing_data_misfit(data_count, shards, present));
    }
    if reconstruct_check(data_count, parity_count, shards, present) is None
        && count_present(present) != data_count + parity_count {
        assert forall|i: int| 0 <= i < data_count && !present[i] implies #[trigger] shards[i].len() == len by {
            assert(shards[i].len() == shards[j].len());
        }
    }
}

} // verus!
