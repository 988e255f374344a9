//! Timbres, their on-disk format and the timbre library.
//!
//! A timbre is stored as a pair of files sharing a stem: `<stem>.toml` holds
//! the metadata (id, name, F0 offset, tags, embedding length) and `<stem>.bin`
//! the embedding as consecutive little-endian `f32` words. This module owns
//! the binary embedding format, the consistency check between the two files,
//! file-name sanitising and the library index (lookup by id, name and tag).
use vstd::prelude::*;
use std::collections::HashMap;
use crate::Sample;
use crate::error::ModelError;
use crate::text::{decimal, push_char, push_decimal};

verus! {

broadcast use vstd::std_specs::hash::group_hash_axioms;

/// Timbre identifier (a newtype, so that it cannot be confused with other ids).
#[derive(Debug, Clone, Copy, PartialEq, Eq, Hash, Structural)]
pub struct TimbreId(pub u64);

impl TimbreId {
    /// A new id with value `v`.
    pub fn new(v: u64) -> (id: Self)
        ensures
            id.0 == v,
    {
        TimbreId(v)
    }

    /// The id's value.
    pub fn get(self) -> (v: u64)
        ensures
            v == self.0,
    {
        self.0
    }

    /// The id's display text, `TimbreId(<value>)`.
    pub fn text(&self) -> (s: String)
        ensures
            s@ == "TimbreId("@ + decimal(self.0 as nat) + ")"@,
    {
        let mut s = String::from_str("TimbreId(");
        push_decimal(&mut s, self.0);
        s.append(")");
        s
    }
}

/// A timbre: speaker embedding and metadata. The embedding and the F0 offset
/// are `f32` values held as their bit patterns.
#[derive(Debug, Clone)]
pub struct Timbre {
    /// Unique identifier.
    pub id: TimbreId,
    /// Human-readable name.
    pub name: String,
    /// Speaker embedding (bit patterns of `f32` values).
    pub embedding: Vec<Sample>,
    /// Suggested F0 offset in semitones (bit pattern of an `f32`).
    pub f0_offset_semitones: u32,
    /// Tags such as "female", "anime", "deep".
    pub tags: Vec<String>,
}

/// The metadata file's content: everything but the embedding data, plus the
/// embedding length used to check the binary file.
#[derive(Debug, Clone)]
pub struct TimbreMetadata {
    pub id: TimbreId,
    pub name: String,
    /// Bit pattern of the `f32` F0 offset in semitones.
    pub f0_offset_semitones: u32,
    pub tags: Vec<String>,
    /// Number of embedding values (checks the `.bin` length).
    pub embedding_len: usize,
}

fn clone_strings(v: &Vec<String>) -> (r: Vec<String>)
    ensures
        r@ == v@,
{
    let mut r: Vec<String> = Vec::new();
    let mut i: usize = 0;
    while i < v.len()
        invariant
            i <= v@.len(),
            r@ == v@.subrange(0, i as int),
        decreases v@.len() - i,
    {
        r.push(v[i].clone());
        i = i + 1;
        assert(r@ =~= v@.subrange(0, i as int));
    }
    assert(v@.subrange(0, v@.len() as int) =~= v@);
    r
}

impl TimbreMetadata {
    /// The metadata of `timbre` (without the embedding data).
    pub fn from_timbre(timbre: &Timbre) -> (m: Self)
        ensures
            m.id == timbre.id,
            m.name@ == timbre.name@,
            m.f0_offset_semitones == timbre.f0_offset_semitones,
            m.tags@ == timbre.tags@,
            m.embedding_len == timbre.embedding@.len(),
    {
        TimbreMetadata {
            id: timbre.id,
            name: timbre.name.clone(),
            f0_offset_semitones: timbre.f0_offset_semitones,
            tags: clone_strings(&timbre.tags),
            embedding_len: timbre.embedding.len(),
        }
    }
}

/// The `k`-th little-endian byte of `w` (`k < 4`).
pub open spec fn le_byte(w: u32, k: int) -> u8 {
    if k == 0 {
        (w % 256) as u8
    } else if k == 1 {
        ((w / 256) % 256) as u8
    } else if k == 2 {
        ((w / 65536) % 256) as u8
    } else {
        (w / 16777216) as u8
    }
}

/// The word whose little-endian bytes are `b[4i..4i+4]`.
pub open spec fn le_word(b: Seq<u8>, i: int) -> u32 {
    (b[4 * i] + 256 * b[4 * i + 1] + 65536 * b[4 * i + 2] + 16777216 * b[4 * i + 3]) as u32
}

/// The embedding file's bytes for `embedding`: each word as 4 little-endian bytes.
pub open spec fn encode_spec(embedding: Seq<Sample>) -> Seq<u8> {
    Seq::new(4 * embedding.len(), |j: int| le_byte(embedding[j / 4], j % 4))
}

/// The embedding held by `bytes` (whose length is a multiple of 4).
pub open spec fn decode_spec(bytes: Seq<u8>) -> Seq<Sample> {
    Seq::new(bytes.len() / 4, |i: int| le_word(bytes, i))
}

/// The message of a length mismatch between metadata and embedding file.
pub open spec fn length_mismatch_text(embedding_len: nat, bytes_len: nat) -> Seq<char> {
    "embedding length mismatch: expected "@ + decimal(embedding_len * 4) + " bytes ("@
        + decimal(embedding_len) + " f32), got "@ + decimal(bytes_len) + " bytes"@
}

proof fn lemma_le_roundtrip_word(w: u32)
    ensures
        le_byte(w, 0) + 256 * le_byte(w, 1) + 65536 * le_byte(w, 2) + 16777216 * le_byte(w, 3) == w,
{
    assert(((w % 256) as u8) + 256 * (((w / 256) % 256) as u8) + 65536 * (((w / 65536) % 256) as u8)
        + 16777216 * ((w / 16777216) as u8) == w) by (bit_vector);
}

proof fn lemma_le_bytes_roundtrip(b0: u8, b1: u8, b2: u8, b3: u8)
    ensures
        ({
            let w = (b0 + 256 * b1 + 65536 * b2 + 16777216 * b3) as u32;
            &&& le_byte(w, 0) == b0
            &&& le_byte(w, 1) == b1
            &&& le_byte(w, 2) == b2
            &&& le_byte(w, 3) == b3
        }),
{
    let w = (b0 + 256 * b1 + 65536 * b2 + 16777216 * b3) as u32;
    assert(((b0 + 256 * b1 + 65536 * b2 + 16777216 * b3) as u32) % 256 == b0 as u32) by (bit_vector);
    assert((((b0 + 256 * b1 + 65536 * b2 + 16777216 * b3) as u32) / 256) % 256 == b1 as u32) by (bit_vector);
    assert((((b0 + 256 * b1 + 65536 * b2 + 16777216 * b3) as u32) / 65536) % 256 == b2 as u32) by (bit_vector);
    assert(((b0 + 256 * b1 + 65536 * b2 + 16777216 * b3) as u32) / 16777216 == b3 as u32) by (bit_vector);
}

/// Encodes an embedding as the bytes of its file: each word as 4 little-endian bytes.
pub fn encode_embedding(embedding: &[Sample]) -> (bytes: Vec<u8>)
    requires
        4 * embedding@.len() <= usize::MAX,
    ensures
        bytes@ == encode_spec(embedding@),
{
    let mut bytes: Vec<u8> = Vec::new();
    let mut i: usize = 0;
    while i < embedding.len()
        invariant
            i <= embedding@.len(),
            4 * embedding@.len() <= usize::MAX,
            bytes@.len() == 4 * i,
            forall|j: int| 0 <= j < 4 * i ==> bytes@[j] == le_byte(embedding@[j / 4], j % 4),
        decreases embedding@.len() - i,
    {
        let w = embedding[i];
        bytes.push((w % 256) as u8);
        bytes.push(((w / 256) % 256) as u8);
        bytes.push(((w / 65536) % 256) as u8);
        bytes.push((w / 16777216) as u8);
        proof {
            assert forall|j: int| 0 <= j < 4 * (i + 1) implies bytes@[j] == le_byte(embedding@[j / 4], j % 4) by {
                if j >= 4 * i {
                    assert(j / 4 == i);
                }
            }
        }
        i = i + 1;
    }
    assert(bytes@ =~= encode_spec(embedding@));
    bytes
}

/// Decodes the bytes of an embedding file holding `embedding_len` words.
/// A file whose length is not `4 * embedding_len` is refused with
/// [`ModelError::Embedding`].
pub fn decode_embedding(bytes: &[u8], embedding_len: usize) -> (r: Result<Vec<Sample>, ModelError>)
    requires
        4 * embedding_len <= usize::MAX,
    ensures
        bytes@.len() == 4 * embedding_len ==> r is Ok && r->Ok_0@ == decode_spec(bytes@),
        bytes@.len() != 4 * embedding_len ==> (r matches Err(ModelError::Embedding(m))
            && m@ == length_mismatch_text(embedding_len as nat, bytes@.len())),
{
    let expected_bytes = embedding_len * 4;
    if bytes.len() != expected_bytes {
        let mut m = String::from_str("embedding length mismatch: expected ");
        push_decimal(&mut m, expected_bytes as u64);
        m.append(" bytes (");
        push_decimal(&mut m, embedding_len as u64);
        m.append(" f32), got ");
        push_decimal(&mut m, bytes.len() as u64);
        m.append(" bytes");
        return Err(ModelError::Embedding(m));
    }
    let mut out: Vec<Sample> = Vec::new();
    let mut i: usize = 0;
    while i < embedding_len
        invariant
            i <= embedding_len,
            4 * embedding_len <= usize::MAX,
            bytes@.len() == 4 * embedding_len,
            out@.len() == i,
            forall|k: int| 0 <= k < i ==> out@[k] == le_word(bytes@, k),
        decreases embedding_len - i,
    {
        let b = 4 * i;
        let (b0, b1, b2, b3) = (bytes[b], bytes[b + 1], bytes[b + 2], bytes[b + 3]);
        assert(b0 + 256 * b1 + 65536 * b2 + 16777216 * b3 <= 0xffff_ffff) by (nonlinear_arith)
            requires b0 <= 255u8, b1 <= 255u8, b2 <= 255u8, b3 <= 255u8;
        let w: u32 = (b0 as u32) + 256 * (b1 as u32) + 65536 * (b2 as u32) + 16777216 * (b3 as u32);
        out.push(w);
        i = i + 1;
    }
    assert(out@ =~= decode_spec(bytes@));
    Ok(out)
}

/// Builds a timbre from its parsed metadata and the bytes of its embedding
/// file; the embedding length must match the metadata.
pub fn timbre_from_parts(metadata: TimbreMetadata, bin_bytes: &[u8]) -> (r: Result<Timbre, ModelError>)
    requires
        4 * metadata.embedding_len <= usize::MAX,
    ensures
        bin_bytes@.len() == 4 * metadata.embedding_len ==> (r matches Ok(t) && t.id == metadata.id
            && t.name == metadata.name && t.f0_offset_semitones == metadata.f0_offset_semitones
            && t.tags == metadata.tags && t.embedding@ == decode_spec(bin_bytes@)),
        bin_bytes@.len() != 4 * metadata.embedding_len ==> (r matches Err(ModelError::Embedding(m))
            && m@ == length_mismatch_text(metadata.embedding_len as nat, bin_bytes@.len())),
{
    match decode_embedding(bin_bytes, metadata.embedding_len) {
        Ok(embedding) => Ok(
            Timbre {
                id: metadata.id,
                name: metadata.name,
                embedding,
                f0_offset_semitones: metadata.f0_offset_semitones,
                tags: metadata.tags,
            },
        ),
        Err(e) => Err(e),
    }
}

/// Decoding the encoding of an embedding gives the embedding back.
pub proof fn lemma_embedding_roundtrip(embedding: Seq<Sample>)
    ensures
        decode_spec(encode_spec(embedding)) == embedding,
{
    let b = encode_spec(embedding);
    assert forall|i: int| 0 <= i < embedding.len() implies #[trigger] le_word(b, i) == embedding[i] by {
        assert((4 * i) / 4 == i && (4 * i + 1) / 4 == i && (4 * i + 2) / 4 == i && (4 * i + 3) / 4 == i);
        assert((4 * i) % 4 == 0 && (4 * i + 1) % 4 == 1 && (4 * i + 2) % 4 == 2 && (4 * i + 3) % 4 == 3);
        lemma_le_roundtrip_word(embedding[i]);
    }
    assert(decode_spec(b) =~= embedding);
}

/// Encoding the embedding decoded from a file whose length is a multiple of 4
/// gives the file's bytes back.
pub proof fn lemma_bytes_roundtrip(bytes: Seq<u8>)
    requires
        bytes.len() % 4 == 0,
    ensures
        encode_spec(decode_spec(bytes)) == bytes,
{
    let e = decode_spec(bytes);
    assert forall|j: int| 0 <= j < bytes.len() implies #[trigger] le_byte(e[j / 4], j % 4) == bytes[j] by {
        let i = j / 4;
        assert(4 * i <= j < 4 * i + 4);
        lemma_le_bytes_roundtrip(bytes[4 * i], bytes[4 * i + 1], bytes[4 * i + 2], bytes[4 * i + 3]);
    }
    assert(encode_spec(e) =~= bytes);
}

/// Whether `c` is alphabetic or numeric in Unicode (`char::is_alphanumeric`).
pub uninterp spec fn is_alphanumeric(c: char) -> bool;

/// The Unicode lowercase mapping of a string (`str::to_lowercase`).
pub uninterp spec fn lowercase(s: Seq<char>) -> Seq<char>;

/// An ASCII letter or digit.
pub open spec fn is_ascii_alnum(c: char) -> bool {
    let v = c as u32;
    (48 <= v <= 57) || (65 <= v <= 90) || (97 <= v <= 122)
}

/// `char::is_alphanumeric`: for an ASCII character exactly the letters and
/// digits; beyond ASCII the Unicode tables decide ([`is_alphanumeric`]).
pub open spec fn alphanumeric(c: char) -> bool {
    if (c as u32) < 128 { is_ascii_alnum(c) } else { is_alphanumeric(c) }
}

/// ASCII lowercase of one character: `A`..`Z` become `a`..`z`, others stay.
pub open spec fn ascii_lower(c: char) -> char {
    if 65 <= (c as u32) <= 90 { ((c as u32) + 32) as char } else { c }
}

/// Whether every character of `s` is ASCII.
pub open spec fn all_ascii(s: Seq<char>) -> bool {
    forall|i: int| 0 <= i < s.len() ==> (#[trigger] s[i] as u32) < 128
}

/// `str::to_lowercase`: on an all-ASCII string the ASCII lowercase of each
/// character; otherwise the Unicode mapping ([`lowercase`]).
pub open spec fn to_lower(s: Seq<char>) -> Seq<char> {
    if all_ascii(s) { Seq::new(s.len(), |i: int| ascii_lower(s[i])) } else { lowercase(s) }
}

/// `char::is_alphanumeric`. For ASCII input the result is stated (letters and
/// digits); beyond ASCII it is the name [`is_alphanumeric`], of which nothing
/// more is stated.
#[verifier::external_body]
fn char_is_alphanumeric(c: char) -> (r: bool)
    ensures
        (c as u32) < 128 ==> r == is_ascii_alnum(c),
        (c as u32) >= 128 ==> r == is_alphanumeric(c),
{
    c.is_alphanumeric()
}

/// `str::to_lowercase`. For an all-ASCII argument the result is stated (ASCII
/// lowercase of each character); otherwise it is the name [`lowercase`] of the
/// argument's characters, of which nothing more is stated.
#[verifier::external_body]
fn str_to_lowercase(s: &str) -> (r: String)
    ensures
        all_ascii(s@) ==> r@ == Seq::new(s@.len(), |i: int| ascii_lower(s@[i])),
        !all_ascii(s@) ==> r@ == lowercase(s@),
{
    s.to_lowercase()
}

/// A file-name character: kept when alphanumeric, `-` or `_`, otherwise `_`.
pub open spec fn sanitize_char(c: char) -> char {
    if alphanumeric(c) || c == '-' || c == '_' { c } else { '_' }
}

/// `name` with every character that is not alphanumeric, `-` or `_` replaced by `_`.
pub open spec fn sanitize_spec(name: Seq<char>) -> Seq<char> {
    Seq::new(name.len(), |i: int| sanitize_char(name[i]))
}

/// File stem for a timbre name: alphanumeric characters, `-` and `_` are
/// kept, every other character becomes `_`.
pub fn sanitize_filename(name: &str) -> (r: String)
    ensures
        r@ == sanitize_spec(name@),
{
    let n = name.unicode_len();
    let mut r = String::new();
    let mut i: usize = 0;
    while i < n
        invariant
            i <= n,
            n == name@.len(),
            r@ == sanitize_spec(name@).subrange(0, i as int),
        decreases n - i,
    {
        let c = name.get_char(i);
        let k = if char_is_alphanumeric(c) || c == '-' || c == '_' { c } else { '_' };
        push_char(&mut r, k);
        i = i + 1;
        assert(r@ =~= sanitize_spec(name@).subrange(0, i as int));
    }
    assert(sanitize_spec(name@).subrange(0, n as int) =~= sanitize_spec(name@));
    r
}

/// Index of the last timbre in `s` with id `id`, or -1.
pub open spec fn last_index_with_id(s: Seq<Timbre>, id: u64) -> int
    decreases s.len(),
{
    if s.len() == 0 {
        -1
    } else if s.last().id.0 == id {
        s.len() - 1
    } else {
        last_index_with_id(s.drop_last(), id)
    }
}

/// Index of the last timbre in `s` named `name`, or -1.
pub open spec fn last_index_with_name(s: Seq<Timbre>, name: Seq<char>) -> int
    decreases s.len(),
{
    if s.len() == 0 {
        -1
    } else if s.last().name@ == name {
        s.len() - 1
    } else {
        last_index_with_name(s.drop_last(), name)
    }
}

/// The id index of a timbre list: each id maps to its last position.
pub open spec fn id_index(s: Seq<Timbre>) -> Map<u64, usize> {
    Map::new(|k: u64| last_index_with_id(s, k) >= 0, |k: u64| last_index_with_id(s, k) as usize)
}

/// The timbres kept from a sequence of load results: each successfully
/// loaded timbre whose id no earlier kept timbre has.
pub open spec fn loaded_timbres(results: Seq<Result<Timbre, ModelError>>) -> Seq<Timbre>
    decreases results.len(),
{
    if results.len() == 0 {
        Seq::empty()
    } else {
        let prev = loaded_timbres(results.drop_last());
        match results.last() {
            Ok(t) => if forall|i: int| 0 <= i < prev.len() ==> #[trigger] prev[i].id != t.id {
                prev.push(t)
            } else {
                prev
            },
            Err(_) => prev,
        }
    }
}

/// Whether a timbre carries the tag `tag` (exact comparison).
pub open spec fn has_tag(t: Timbre, tag: Seq<char>) -> bool {
    exists|i: int| 0 <= i < t.tags@.len() && #[trigger] t.tags@[i]@ == tag
}

/// Whether a timbre carries a tag whose lowercase form is `tag_lower`.
pub open spec fn has_tag_ci(t: Timbre, tag_lower: Seq<char>) -> bool {
    exists|i: int| 0 <= i < t.tags@.len() && to_lower(#[trigger] t.tags@[i]@) == tag_lower
}

proof fn lemma_last_index_bounds(s: Seq<Timbre>, id: u64)
    ensures
        -1 <= last_index_with_id(s, id) < s.len(),
        last_index_with_id(s, id) >= 0 ==> s[last_index_with_id(s, id)].id.0 == id,
        last_index_with_id(s, id) < 0 <==> forall|i: int| 0 <= i < s.len() ==> #[trigger] s[i].id.0 != id,
        forall|i: int| last_index_with_id(s, id) < i < s.len() ==> #[trigger] s[i].id.0 != id,
    decreases s.len(),
{
    if s.len() > 0 {
        let d = s.drop_last();
        lemma_last_index_bounds(d, id);
        assert forall|i: int| 0 <= i < s.len() - 1 implies s[i] == #[trigger] d[i] by {}
        if s.last().id.0 != id {
            assert(last_index_with_id(s, id) == last_index_with_id(d, id));
            assert forall|i: int| last_index_with_id(s, id) < i < s.len() implies #[trigger] s[i].id.0 != id by {
                if i < s.len() - 1 {
                    assert(s[i] == d[i]);
                }
            }
            if last_index_with_id(s, id) < 0 {
                assert forall|i: int| 0 <= i < s.len() implies #[trigger] s[i].id.0 != id by {
                    if i < s.len() - 1 {
                        assert(s[i] == d[i]);
                    }
                }
            }
        } else {
            assert(s[s.len() - 1].id.0 == id);
        }
    }
}

proof fn lemma_last_name_bounds(s: Seq<Timbre>, name: Seq<char>)
    ensures
        -1 <= last_index_with_name(s, name) < s.len(),
        last_index_with_name(s, name) >= 0 ==> s[last_index_with_name(s, name)].name@ == name,
    decreases s.len(),
{
    if s.len() > 0 {
        lemma_last_name_bounds(s.drop_last(), name);
    }
}

/// The timbre library: loaded timbres, looked up by id, name and tag.
///
/// Lookups by id and by name find the last timbre added with that id or name.
pub struct TimbreLibrary {
    timbres: Vec<Timbre>,
    by_id: HashMap<u64, usize>,
}

impl View for TimbreLibrary {
    type V = Seq<Timbre>;

    closed spec fn view(&self) -> Seq<Timbre> {
        self.timbres@
    }
}

fn has_tag_exec(t: &Timbre, tag: &String) -> (r: bool)
    ensures
        r == has_tag(*t, tag@),
{
    let mut i: usize = 0;
    while i < t.tags.len()
        invariant
            i <= t.tags@.len(),
            forall|k: int| 0 <= k < i ==> #[trigger] t.tags@[k]@ != tag@,
        decreases t.tags@.len() - i,
    {
        if t.tags[i] == *tag {
            return true;
        }
        i = i + 1;
    }
    false
}

fn has_tag_ci_exec(t: &Timbre, tag_lower: &String) -> (r: bool)
    ensures
        r == has_tag_ci(*t, tag_lower@),
{
    let mut i: usize = 0;
    while i < t.tags.len()
        invariant
            i <= t.tags@.len(),
            forall|k: int| 0 <= k < i ==> to_lower(#[trigger] t.tags@[k]@) != tag_lower@,
        decreases t.tags@.len() - i,
    {
        let lower = str_to_lowercase(t.tags[i].as_str());
        if lower == *tag_lower {
            return true;
        }
        i = i + 1;
    }
    false
}

impl TimbreLibrary {
    /// The id index agrees with the timbre list.
    pub closed spec fn wf(&self) -> bool {
        &&& self.by_id@ == id_index(self.timbres@)
    }

    /// A library holding `timbres` in order.
    pub fn from_timbres(timbres: Vec<Timbre>) -> (lib: Self)
        ensures
            lib.wf(),
            lib@ == timbres@,
    {
        let mut by_id: HashMap<u64, usize> = HashMap::new();
        let mut i: usize = 0;
        while i < timbres.len()
            invariant
                i <= timbres@.len(),
                by_id@ == id_index(timbres@.subrange(0, i as int)),
            decreases timbres@.len() - i,
        {
            let ghost prefix = timbres@.subrange(0, i as int);
            let ghost next = timbres@.subrange(0, i + 1);
            assert(next.drop_last() =~= prefix);
            by_id.insert(timbres[i].id.0, i);
            assert(by_id@ =~= id_index(next));
            i = i + 1;
        }
        assert(timbres@.subrange(0, timbres@.len() as int) =~= timbres@);
        TimbreLibrary { timbres, by_id }
    }

    /// Adds `timbre` unless a timbre with the same id is already present.
    /// Returns whether it was added.
    pub fn try_add(&mut self, timbre: Timbre) -> (added: bool)
        requires
            old(self).wf(),
        ensures
            final(self).wf(),
            added == (forall|i: int| 0 <= i < old(self)@.len() ==> #[trigger] old(self)@[i].id != timbre.id),
            added ==> final(self)@ == old(self)@.push(timbre),
            !added ==> final(self)@ == old(self)@,
    {
        proof {
            lemma_last_index_bounds(self.timbres@, timbre.id.0);
        }
        if self.by_id.contains_key(&timbre.id.0) {
            let ghost k = last_index_with_id(self.timbres@, timbre.id.0);
            assert(id_index(self.timbres@).dom().contains(timbre.id.0));
            assert(k >= 0);
            assert(self.timbres@[k].id.0 == timbre.id.0);
            assert(self.timbres@[k].id == timbre.id);
            assert(self@[k].id == timbre.id);
            return false;
        }
        assert(!id_index(self.timbres@).dom().contains(timbre.id.0));
        assert forall|i: int| 0 <= i < self.timbres@.len() implies #[trigger] self.timbres@[i].id != timbre.id by {
            assert(self.timbres@[i].id.0 != timbre.id.0);
        }
        let idx = self.timbres.len();
        let key = timbre.id.0;
        let ghost before = self.timbres@;
        self.timbres.push(timbre);
        assert(self.timbres@.drop_last() =~= before);
        self.by_id.insert(key, idx);
        assert(self.by_id@ =~= id_index(self.timbres@));
        true
    }

    /// A library built from the results of loading timbre files, in order:
    /// files that failed to load are skipped, and so is every timbre whose id
    /// was already taken by an earlier one.
    pub fn from_loaded(results: Vec<Result<Timbre, ModelError>>) -> (lib: Self)
        ensures
            lib.wf(),
            lib@ == loaded_timbres(results@),
    {
        let ghost all = results@;
        let total: usize = results.len();
        assert(all.len() == total);
        let mut lib = TimbreLibrary::from_timbres(Vec::new());
        assert(lib@ =~= loaded_timbres(all.subrange(0, 0)));
        let mut rest = results;
        let mut consumed: usize = 0;
        while rest.len() > 0
            invariant
                lib.wf(),
                all.len() <= usize::MAX,
                consumed + rest@.len() == all.len(),
                rest@ == all.subrange(consumed as int, all.len() as int),
                lib@ == loaded_timbres(all.subrange(0, consumed as int)),
            decreases rest@.len(),
        {
            let ghost next = all.subrange(0, consumed + 1);
            assert(next.drop_last() =~= all.subrange(0, consumed as int));
            assert(next.last() == rest@[0]);
            let r = rest.remove(0);
            match r {
                Ok(t) => {
                    lib.try_add(t);
                },
                Err(_) => {},
            }
            consumed = consumed + 1;
            assert(rest@ =~= all.subrange(consumed as int, all.len() as int));
        }
        assert(all.subrange(0, all.len() as int) =~= all);
        lib
    }

    /// All timbres, in the order they were added.
    pub fn list(&self) -> (r: &[Timbre])
        ensures
            r@ == self@,
    {
        self.timbres.as_slice()
    }

    /// Number of timbres.
    pub fn len(&self) -> (n: usize)
        ensures
            n == self@.len(),
    {
        self.timbres.len()
    }

    /// Whether the library holds no timbre.
    pub fn is_empty(&self) -> (b: bool)
        ensures
            b == (self@.len() == 0),
    {
        self.timbres.len() == 0
    }

    /// The last timbre added with id `id`.
    pub fn find_by_id(&self, id: &TimbreId) -> (r: Option<&Timbre>)
        requires
            self.wf(),
        ensures
            last_index_with_id(self@, id.0) < 0 ==> r is None,
            last_index_with_id(self@, id.0) >= 0 ==> r == Some(&self@[last_index_with_id(self@, id.0)]),
    {
        proof {
            lemma_last_index_bounds(self.timbres@, id.0);
        }
        let ghost k = last_index_with_id(self.timbres@, id.0);
        let n = self.timbres.len();
        match self.by_id.get(&id.0) {
            Some(idx) => {
                assert(id_index(self.timbres@).dom().contains(id.0));
                assert(0 <= k < n);
                assert(self.by_id@[id.0] == *idx);
                assert(id_index(self.timbres@)[id.0] == k as usize);
                assert(*idx as int == k);
                let t = &self.timbres[*idx];
                assert(*t == self@[k]);
                Some(t)
            },
            None => {
                assert(!id_index(self.timbres@).dom().contains(id.0));
                None
            },
        }
    }

    /// The last timbre added with the name `name` (exact match).
    pub fn find_by_name(&self, name: &str) -> (r: Option<&Timbre>)
        ensures
            last_index_with_name(self@, name@) < 0 ==> r is None,
            last_index_with_name(self@, name@) >= 0 ==> r == Some(&self@[last_index_with_name(self@, name@)]),
    {
        let key = String::from_str(name);
        let mut i: usize = self.timbres.len();
        assert(self.timbres@.subrange(0, i as int) =~= self.timbres@);
        while i > 0
            invariant
                i <= self.timbres@.len(),
                key@ == name@,
                last_index_with_name(self.timbres@, name@) == last_index_with_name(
                    self.timbres@.subrange(0, i as int),
                    name@,
                ),
            decreases i,
        {
            let ghost prefix = self.timbres@.subrange(0, i as int);
            assert(prefix.drop_last() =~= self.timbres@.subrange(0, i - 1));
            if self.timbres[i - 1].name == key {
                return Some(&self.timbres[i - 1]);
            }
            i = i - 1;
        }
        None
    }

    /// All timbres carrying the tag `tag` (exact comparison), in order.
    pub fn find_by_tag(&self, tag: &str) -> (r: Vec<&Timbre>)
        ensures
            r@.map_values(|t: &Timbre| *t) == self@.filter(|t: Timbre| has_tag(t, tag@)),
    {
        let key = String::from_str(tag);
        let ghost pred = |t: Timbre| has_tag(t, tag@);
        let mut r: Vec<&Timbre> = Vec::new();
        let mut i: usize = 0;
        while i < self.timbres.len()
            invariant
                i <= self.timbres@.len(),
                key@ == tag@,
                pred == (|t: Timbre| has_tag(t, tag@)),
                r@.map_values(|t: &Timbre| *t) == self.timbres@.subrange(0, i as int).filter(pred),
            decreases self.timbres@.len() - i,
        {
            let ghost next = self.timbres@.subrange(0, i + 1);
            assert(next.drop_last() =~= self.timbres@.subrange(0, i as int));
            reveal_with_fuel(Seq::<Timbre>::filter, 1);
            if has_tag_exec(&self.timbres[i], &key) {
                r.push(&self.timbres[i]);
            }
            assert(r@.map_values(|t: &Timbre| *t) =~= next.filter(pred));
            i = i + 1;
        }
        assert(self.timbres@.subrange(0, self.timbres@.len() as int) =~= self.timbres@);
        r
    }

    /// All timbres carrying a tag equal to `tag` ignoring case (both sides
    /// lowercased), in order.
    pub fn find_by_tag_ci(&self, tag: &str) -> (r: Vec<&Timbre>)
        ensures
            r@.map_values(|t: &Timbre| *t) == self@.filter(|t: Timbre| has_tag_ci(t, to_lower(tag@))),
    {
        let key = str_to_lowercase(tag);
        let ghost pred = |t: Timbre| has_tag_ci(t, to_lower(tag@));
        let mut r: Vec<&Timbre> = Vec::new();
        let mut i: usize = 0;
        while i < self.timbres.len()
            invariant
                i <= self.timbres@.len(),
                key@ == to_lower(tag@),
                pred == (|t: Timbre| has_tag_ci(t, to_lower(tag@))),
                r@.map_values(|t: &Timbre| *t) == self.timbres@.subrange(0, i as int).filter(pred),
            decreases self.timbres@.len() - i,
        {
            let ghost next = self.timbres@.subrange(0, i + 1);
            assert(next.drop_last() =~= self.timbres@.subrange(0, i as int));
            reveal_with_fuel(Seq::<Timbre>::filter, 1);
            if has_tag_ci_exec(&self.timbres[i], &key) {
                r.push(&self.timbres[i]);
            }
            assert(r@.map_values(|t: &Timbre| *t) =~= next.filter(pred));
            i = i + 1;
        }
        assert(self.timbres@.subrange(0, self.timbres@.len() as int) =~= self.timbres@);
        r
    }
}


/// Sanitising keeps the length and is idempotent: a sanitised name is its own sanitised form.
pub proof fn lemma_sanitize_idempotent(name: Seq<char>)
    ensures
        sanitize_spec(name).len() == name.len(),
        sanitize_spec(sanitize_spec(name)) == sanitize_spec(name),
{
    assert(sanitize_spec(sanitize_spec(name)) =~= sanitize_spec(name));
}

/// After a timbre is added to the library, looking up its id finds it, and
/// looking up any other id finds what it found before.
pub proof fn lemma_find_after_add(before: Seq<Timbre>, t: Timbre, other: u64)
    ensures
        last_index_with_id(before.push(t), t.id.0) == before.len(),
        other != t.id.0 ==> last_index_with_id(before.push(t), other) == last_index_with_id(before, other),
{
    assert(before.push(t).drop_last() =~= before);
}

/// A library built by adding timbres one by one, skipping duplicates, holds
/// at most one timbre per id.
pub open spec fn ids_unique(s: Seq<Timbre>) -> bool {
    forall|i: int, k: int| 0 <= i < k < s.len() ==> #[trigger] s[i].id != #[trigger] s[k].id
}

/// Adding only timbres whose id is absent keeps the ids unique.
pub proof fn lemma_add_keeps_ids_unique(before: Seq<Timbre>, t: Timbre)
    requires
        ids_unique(before),
        forall|i: int| 0 <= i < before.len() ==> #[trigger] before[i].id != t.id,
    ensures
        ids_unique(before.push(t)),
{
    let after = before.push(t);
    assert forall|i: int, k: int| 0 <= i < k < after.len() implies #[trigger] after[i].id != #[trigger] after[k].id by {
        if k == before.len() {
            assert(after[i] == before[i]);
        } else {
            assert(after[i] == before[i] && after[k] == before[k]);
        }
    }
}

/// A library loaded from timbre files never holds two timbres with the same
/// id: whatever the files hold, the kept timbres have pairwise distinct ids.
pub proof fn lemma_loaded_ids_unique(results: Seq<Result<Timbre, ModelError>>)
    ensures
        ids_unique(loaded_timbres(results)),
    decreases results.len(),
{
    if results.len() > 0 {
        let prev = loaded_timbres(results.drop_last());
        lemma_loaded_ids_unique(results.drop_last());
        match results.last() {
            Ok(t) => {
                if forall|i: int| 0 <= i < prev.len() ==> #[trigger] prev[i].id != t.id {
                    lemma_add_keeps_ids_unique(prev, t);
                }
            },
            Err(_) => {},
        }
    }
}

} // verus!
