//! Positioned-read inputs and the extraction of features from them.

use vstd::prelude::*;
use vstd::utf8::valid_utf8;

use crate::config::{
    probe_offset, spec_probe_offset, ModelConfig, PROBE_COUNT, PROBE_SIZE,
};
use crate::content::ContentType;
use crate::error::{Error, Result};

verus! {

/// Features to identify a file with deep-learning.
pub struct Features(pub Vec<i32>);

/// Positioned reads over the content of an input.
pub trait SyncInputApi {
    /// The bytes of the input. An implementation that states nothing of its content
    /// leaves them unknown.
    open spec fn content(&self) -> Seq<u8> {
        vstd::pervasive::arbitrary()
    }

    /// Whether reads inside the content always succeed, as they do for an input held in
    /// memory. An implementation that states nothing promises nothing.
    open spec fn infallible(&self) -> bool {
        false
    }

    /// Returns the size of the input.
    fn length(&self) -> (r: Result<usize>)
        ensures
            r is Ok ==> r->Ok_0 == self.content().len(),
            self.infallible() ==> r is Ok,
    ;

    /// Reads from the input at the given offset to fill the buffer.
    fn read_at(&mut self, buffer: &mut Vec<u8>, offset: usize) -> (r: Result<()>)
        ensures
            final(self).content() == old(self).content(),
            final(self).infallible() == old(self).infallible(),
            final(buffer)@.len() == old(buffer)@.len(),
            r is Ok ==> offset + old(buffer)@.len() <= old(self).content().len() && final(buffer)@
                == old(self).content().subrange(offset as int, offset + old(buffer)@.len()),
            old(self).infallible() && offset + old(buffer)@.len() <= old(self).content().len()
                ==> r is Ok,
    ;
}

/// Synchronous abstraction over file content.
pub trait SyncInput: SyncInputApi {

}

impl SyncInputApi for &[u8] {
    open spec fn content(&self) -> Seq<u8> {
        self@
    }

    open spec fn infallible(&self) -> bool {
        true
    }

    fn length(&self) -> (r: Result<usize>) {
        Ok(self.len())
    }

    /// Fails with `ShortRead` when the buffer reaches past the end of the slice.
    fn read_at(&mut self, buffer: &mut Vec<u8>, offset: usize) -> (r: Result<()>) {
        let len = self.len();
        if offset > len || buffer.len() > len - offset {
            return Err(Error::ShortRead);
        }
        let n = buffer.len();
        let mut i: usize = 0;
        while i < n
            invariant
                i <= n,
                n == buffer@.len(),
                len == self@.len(),
                offset + n <= len,
                forall|j: int| 0 <= j < i ==> buffer@[j] == self@[offset + j],
            decreases n - i,
        {
            buffer.set(i, self[offset + i]);
            i = i + 1;
        }
        assert(buffer@ =~= self@.subrange(offset as int, offset + n));
        Ok(())
    }
}

impl SyncInput for &[u8] {

}

/// ASCII whitespace: space, tab, line feed, vertical tab, form feed and carriage return.
pub open spec fn spec_is_whitespace(x: u8) -> bool {
    x == 0x20 || x == 0x09 || x == 0x0a || x == 0x0b || x == 0x0c || x == 0x0d
}

/// The bytes left once the leading whitespace is removed.
pub open spec fn strip_front(xs: Seq<u8>) -> Seq<u8>
    decreases xs.len(),
{
    if xs.len() > 0 && spec_is_whitespace(xs[0]) {
        strip_front(xs.subrange(1, xs.len() as int))
    } else {
        xs
    }
}

/// The bytes left once the trailing whitespace is removed.
pub open spec fn strip_back(xs: Seq<u8>) -> Seq<u8>
    decreases xs.len(),
{
    if xs.len() > 0 && spec_is_whitespace(xs[xs.len() - 1]) {
        strip_back(xs.subrange(0, xs.len() - 1))
    } else {
        xs
    }
}

/// Where the copy starts in a range with `x` spare places: at its start, its middle
/// (rounded down) or its end, for an alignment of 0, 1 or 2.
pub open spec fn aligned_start(x: int, align: int) -> int {
    x * align / 2
}

/// Copies `min(len, |src|)` bytes of `src`, widened, into the band of `len` places at
/// `start` of `v`, both sides aligned as `align` says; the rest of `v` is kept.
pub open spec fn band_write(v: Seq<i32>, start: int, len: int, src: Seq<u8>, align: int) -> Seq<
    i32,
> {
    let l = if len < src.len() {
        len
    } else {
        src.len() as int
    };
    let d0 = start + aligned_start(len - l, align);
    let s0 = aligned_start(src.len() - l, align);
    Seq::new(v.len(), |k: int| if d0 <= k < d0 + l { src[s0 + k - d0] as i32 } else { v[k] })
}

/// The bytes of probe `k`: eight bytes at its offset, or none when they are not all there.
pub open spec fn probe_bytes(content: Seq<u8>, k: int) -> Seq<u8> {
    let o = spec_probe_offset(k);
    if o + PROBE_SIZE <= content.len() {
        content.subrange(o, o + PROBE_SIZE)
    } else {
        Seq::empty()
    }
}

/// `v` with the first `k` probe bands, from `base` on, filled from `content`.
pub open spec fn probes_written(v: Seq<i32>, base: int, content: Seq<u8>, k: nat) -> Seq<i32>
    decreases k,
{
    if k == 0 {
        v
    } else {
        band_write(
            probes_written(v, base, content, (k - 1) as nat),
            base + PROBE_SIZE * (k - 1),
            PROBE_SIZE as int,
            probe_bytes(content, k - 1),
            0,
        )
    }
}

/// Size of the windows read at the beginning and at the end.
pub open spec fn block_len(config: &ModelConfig, content: Seq<u8>) -> int {
    if config.block_size < content.len() {
        config.block_size as int
    } else {
        content.len() as int
    }
}

/// The window read at the beginning of the content.
pub open spec fn first_block(config: &ModelConfig, content: Seq<u8>) -> Seq<u8> {
    content.subrange(0, block_len(config, content))
}

/// The window read at the end of the content.
pub open spec fn last_block(config: &ModelConfig, content: Seq<u8>) -> Seq<u8> {
    content.subrange(content.len() - block_len(config, content), content.len() as int)
}

/// The bytes read in the middle of the content.
pub open spec fn middle(config: &ModelConfig, content: Seq<u8>) -> Seq<u8> {
    let mid_len = if config.mid_size < content.len() {
        config.mid_size as int
    } else {
        content.len() as int
    };
    let mid_off = (content.len() - mid_len) / 2;
    content.subrange(mid_off, mid_off + mid_len)
}

/// The feature vector before any probe: padding, then the stripped beginning left-aligned,
/// the middle centered and the stripped end right-aligned in their bands.
pub open spec fn bands_of(config: &ModelConfig, content: Seq<u8>) -> Seq<i32> {
    let v0 = Seq::new(config.spec_features_size() as nat, |_k: int| config.padding_token);
    let v1 = band_write(v0, 0, config.beg_size as int, strip_front(first_block(config, content)), 0);
    let v2 = band_write(
        v1,
        config.beg_size as int,
        config.mid_size as int,
        middle(config, content),
        1,
    );
    band_write(
        v2,
        config.beg_size + config.mid_size,
        config.end_size as int,
        strip_back(last_block(config, content)),
        2,
    )
}

/// The feature vector of a content.
pub open spec fn features_of(config: &ModelConfig, content: Seq<u8>) -> Seq<i32> {
    if config.use_inputs_at_offsets {
        probes_written(
            bands_of(config, content),
            config.beg_size + config.mid_size + config.end_size,
            content,
            PROBE_COUNT as nat,
        )
    } else {
        bands_of(config, content)
    }
}

/// Result of features extraction, as a value.
pub enum Extracted {
    /// The feature vector.
    Features(Seq<i32>),
    /// The content type decided without the model.
    Ruled(ContentType),
}

/// What the extraction gives for a content: `Empty` for no bytes; the features when the
/// position `min_file_size_for_dl - 1` holds a byte; otherwise `Txt` when the first window
/// is UTF-8 and `Unknown` when it is not.
pub open spec fn spec_extract(config: &ModelConfig, content: Seq<u8>) -> Extracted {
    if content.len() == 0 {
        Extracted::Ruled(ContentType::Empty)
    } else if features_of(config, content)[config.min_file_size_for_dl - 1]
        != config.padding_token {
        Extracted::Features(features_of(config, content))
    } else if valid_utf8(first_block(config, content)) {
        Extracted::Ruled(ContentType::Txt)
    } else {
        Extracted::Ruled(ContentType::Unknown)
    }
}

/// Result of features extraction.
pub enum FeaturesOrRuled {
    /// Features extracted for deep-learning.
    Features(Features),
    /// Content identified without deep-learning.
    Ruled(ContentType),
}

impl View for FeaturesOrRuled {
    type V = Extracted;

    open spec fn view(&self) -> Extracted {
        match self {
            FeaturesOrRuled::Features(f) => Extracted::Features(f.0@),
            FeaturesOrRuled::Ruled(c) => Extracted::Ruled(*c),
        }
    }
}

/// Relies on `std::str::from_utf8`: it succeeds exactly on well-formed UTF-8.
#[verifier::external_body]
fn is_utf8(bytes: &[u8]) -> (r: bool)
    ensures
        r == valid_utf8(bytes@),
{
    std::str::from_utf8(bytes).is_ok()
}

/// Returns whether a byte is whitespace.
pub fn is_whitespace(x: u8) -> (r: bool)
    ensures
        r == spec_is_whitespace(x),
{
    x == 0x20 || x == 0x09 || x == 0x0a || x == 0x0b || x == 0x0c || x == 0x0d
}

/// Returns the number of leading whitespace bytes.
pub fn strip_prefix(xs: &[u8]) -> (r: usize)
    ensures
        r <= xs@.len(),
        xs@.subrange(r as int, xs@.len() as int) == strip_front(xs@),
{
    let n = xs.len();
    let mut i: usize = 0;
    assert(xs@.subrange(0, n as int) =~= xs@);
    while i < n && is_whitespace(xs[i])
        invariant
            i <= n,
            n == xs@.len(),
            strip_front(xs@.subrange(i as int, n as int)) == strip_front(xs@),
        decreases n - i,
    {
        assert(xs@.subrange(i as int, n as int).subrange(1, n - i) =~= xs@.subrange(
            i + 1,
            n as int,
        ));
        i = i + 1;
    }
    i
}

/// Returns the length of what is left once the trailing whitespace is removed.
pub fn strip_suffix(xs: &[u8]) -> (r: usize)
    ensures
        r <= xs@.len(),
        xs@.subrange(0, r as int) == strip_back(xs@),
{
    let n = xs.len();
    let mut i: usize = n;
    assert(xs@.subrange(0, n as int) =~= xs@);
    while i > 0 && is_whitespace(xs[i - 1])
        invariant
            i <= n,
            n == xs@.len(),
            strip_back(xs@.subrange(0, i as int)) == strip_back(xs@),
        decreases i,
    {
        assert(xs@.subrange(0, i as int).subrange(0, i - 1) =~= xs@.subrange(0, i - 1));
        i = i - 1;
    }
    i
}

/// Returns `x * align / 2` for an alignment of 0, 1 or 2.
fn aligned(x: usize, align: usize) -> (r: usize)
    requires
        align <= 2,
    ensures
        r == aligned_start(x as int, align as int),
{
    if align == 0 {
        assert(x * 0 / 2 == 0) by (nonlinear_arith);
        0
    } else if align == 1 {
        assert(x * 1 / 2 == x / 2) by (nonlinear_arith);
        x / 2
    } else {
        assert(x * 2 / 2 == x) by (nonlinear_arith);
        x
    }
}

/// Copies `src[lo..hi]`, widened, into the band of `len` places at `start` of `dst`, with
/// the alignment policy of `band_write`.
pub fn copy_features(
    dst: &mut Vec<i32>,
    start: usize,
    len: usize,
    src: &[u8],
    lo: usize,
    hi: usize,
    align: usize,
)
    requires
        start + len <= old(dst)@.len(),
        lo <= hi <= src@.len(),
        align <= 2,
    ensures
        final(dst)@ == band_write(
            old(dst)@,
            start as int,
            len as int,
            src@.subrange(lo as int, hi as int),
            align as int,
        ),
{
    let ghost before = dst@;
    let ghost s = src@.subrange(lo as int, hi as int);
    let src_len = hi - lo;
    let l = if len < src_len {
        len
    } else {
        src_len
    };
    let a = aligned(len - l, align);
    let b = aligned(src_len - l, align);
    assert(a <= len - l) by (nonlinear_arith)
        requires
            align <= 2,
            a == (len - l) * align / 2,
            len - l >= 0,
    ;
    assert(b <= src_len - l) by (nonlinear_arith)
        requires
            align <= 2,
            b == (src_len - l) * align / 2,
            src_len - l >= 0,
    ;
    let dst_len = dst.len();
    let whole_len = src.len();
    let d0 = start + a;
    let s0 = b;
    let mut i: usize = 0;
    while i < l
        invariant
            i <= l,
            d0 + l <= before.len(),
            before.len() == dst_len,
            s0 + l <= s.len(),
            lo <= hi,
            hi <= whole_len,
            whole_len == src@.len(),
            d0 == start + aligned_start((len - l) as int, align as int),
            s0 == aligned_start((src_len - l) as int, align as int),
            l == (if len < src_len { len } else { src_len }),
            s.len() == src_len,
            lo + src_len <= src@.len(),
            s == src@.subrange(lo as int, hi as int),
            dst@.len() == before.len(),
            forall|k: int|
                0 <= k < dst@.len() ==> dst@[k] == (if d0 <= k < d0 + i {
                    s[s0 + k - d0] as i32
                } else {
                    before[k]
                }),
        decreases l - i,
    {
        assert(s[s0 + i] == src@[lo + s0 + i]);
        dst.set(d0 + i, src[lo + s0 + i] as i32);
        i = i + 1;
    }
    assert(dst@ =~= band_write(before, start as int, len as int, s, align as int));
}

/// Reads the three windows and the probes of `file` and packs them into a feature vector.
/// Returns the first window, as read, beside the features.
pub fn extract_features<T: SyncInputApi>(
    config: &ModelConfig,
    file: &mut T,
    file_len: usize,
) -> (r: Result<(Vec<u8>, Vec<i32>)>)
    requires
        config.wf(),
        file_len == old(file).content().len(),
    ensures
        final(file).content() == old(file).content(),
        final(file).infallible() == old(file).infallible(),
        r is Ok ==> r->Ok_0.0@ == first_block(config, old(file).content()) && r->Ok_0.1@
            == features_of(config, old(file).content()),
        old(file).infallible() ==> r is Ok,
{
    let ghost content = file.content();
    let buffer_size = if config.block_size < file_len {
        config.block_size
    } else {
        file_len
    };
    let mut content_beg: Vec<u8> = vec![0u8; buffer_size];
    match file.read_at(&mut content_beg, 0) {
        Ok(()) => {},
        Err(e) => {
            return Err(e);
        },
    }
    let beg_lo = strip_prefix(content_beg.as_slice());
    let mut content_end: Vec<u8> = vec![0u8; buffer_size];
    match file.read_at(&mut content_end, file_len - buffer_size) {
        Ok(()) => {},
        Err(e) => {
            return Err(e);
        },
    }
    let end_hi = strip_suffix(content_end.as_slice());
    let mid_len = if config.mid_size < file_len {
        config.mid_size
    } else {
        file_len
    };
    let mid_off = (file_len - mid_len) / 2;
    let mut mid: Vec<u8> = vec![0u8; mid_len];
    match file.read_at(&mut mid, mid_off) {
        Ok(()) => {},
        Err(e) => {
            return Err(e);
        },
    }
    assert(content_beg@.subrange(0, buffer_size as int) =~= content_beg@);
    assert(content_end@.subrange(0, buffer_size as int) =~= content_end@);
    assert(mid@.subrange(0, mid_len as int) =~= mid@);
    let size = config.features_size();
    let mut features: Vec<i32> = vec![config.padding_token; size];
    assert(features@ =~= Seq::new(size as nat, |_k: int| config.padding_token));
    copy_features(&mut features, 0, config.beg_size, content_beg.as_slice(), beg_lo, buffer_size, 0);
    copy_features(
        &mut features,
        config.beg_size,
        config.mid_size,
        mid.as_slice(),
        0,
        mid_len,
        1,
    );
    copy_features(
        &mut features,
        config.beg_size + config.mid_size,
        config.end_size,
        content_end.as_slice(),
        0,
        end_hi,
        2,
    );
    assert(features@ == bands_of(config, content));
    if config.use_inputs_at_offsets {
        let base = config.beg_size + config.mid_size + config.end_size;
        let ghost bands = features@;
        let mut k: usize = 0;
        while k < PROBE_COUNT
            invariant
                config.wf(),
                config.use_inputs_at_offsets,
                base == config.beg_size + config.mid_size + config.end_size,
                k <= PROBE_COUNT,
                file_len == content.len(),
                file.content() == content,
                content == old(file).content(),
                file.infallible() == old(file).infallible(),
                features@.len() == config.spec_features_size(),
                features@ == probes_written(bands, base as int, content, k as nat),
            decreases PROBE_COUNT - k,
        {
            let offset = probe_offset(k);
            let mut buffer: Vec<u8> = Vec::new();
            if offset + PROBE_SIZE <= file_len {
                buffer = vec![0u8; PROBE_SIZE];
                match file.read_at(&mut buffer, offset) {
                    Ok(()) => {},
                    Err(e) => {
                        return Err(e);
                    },
                }
            }
            let buffer_len = buffer.len();
            assert(buffer@.subrange(0, buffer_len as int) =~= probe_bytes(content, k as int));
            copy_features(
                &mut features,
                base + PROBE_SIZE * k,
                PROBE_SIZE,
                buffer.as_slice(),
                0,
                buffer_len,
                0,
            );
            k = k + 1;
        }
    }
    Ok((content_beg, features))
}

/// Every entry of `probes_written` is one of `v` or a byte, and its length is that of `v`.
proof fn lemma_probes_shape(v: Seq<i32>, base: int, content: Seq<u8>, k: nat, pad: i32)
    requires
        forall|j: int| 0 <= j < v.len() ==> (0 <= #[trigger] v[j] <= 255 || v[j] == pad),
    ensures
        probes_written(v, base, content, k).len() == v.len(),
        forall|j: int|
            0 <= j < v.len() ==> (0 <= #[trigger] probes_written(v, base, content, k)[j] <= 255
                || probes_written(v, base, content, k)[j] == pad),
    decreases k,
{
    if k > 0 {
        lemma_probes_shape(v, base, content, (k - 1) as nat, pad);
    }
}

/// Feature-vector shape: an extracted vector has `features_size` entries, and each is a
/// byte in `[0, 255]` or the padding token.
pub proof fn lemma_features_shape(config: &ModelConfig, content: Seq<u8>)
    requires
        config.wf(),
    ensures
        features_of(config, content).len() == config.spec_features_size(),
        forall|j: int|
            0 <= j < config.spec_features_size() ==> (0 <= #[trigger] features_of(config, content)[j]
                <= 255 || features_of(config, content)[j] == config.padding_token),
{
    let b = bands_of(config, content);
    assert(forall|j: int| 0 <= j < b.len() ==> (0 <= #[trigger] b[j] <= 255 || b[j] == config.padding_token));
    if config.use_inputs_at_offsets {
        lemma_probes_shape(
            b,
            config.beg_size + config.mid_size + config.end_size,
            content,
            PROBE_COUNT as nat,
            config.padding_token,
        );
    }
}

/// Whitespace only strips to nothing.
proof fn lemma_strip_whitespace(xs: Seq<u8>)
    requires
        forall|i: int| 0 <= i < xs.len() ==> spec_is_whitespace(#[trigger] xs[i]),
    ensures
        strip_front(xs).len() == 0,
    decreases xs.len(),
{
    if xs.len() > 0 {
        let ys = xs.subrange(1, xs.len() as int);
        assert forall|i: int| 0 <= i < ys.len() implies spec_is_whitespace(#[trigger] ys[i]) by {
            assert(ys[i] == xs[i + 1]);
        }
        lemma_strip_whitespace(ys);
    }
}

/// Probe bands leave the places before `base` as they were.
proof fn lemma_probes_keep_prefix(v: Seq<i32>, base: int, content: Seq<u8>, k: nat, j: int)
    requires
        0 <= j < base,
        j < v.len(),
    ensures
        probes_written(v, base, content, k)[j] == v[j],
    decreases k,
{
    if k > 0 {
        lemma_probes_keep_prefix(v, base, content, (k - 1) as nat, j);
        lemma_probes_shape_len(v, base, content, (k - 1) as nat);
    }
}

/// Probe bands keep the length of the vector.
proof fn lemma_probes_shape_len(v: Seq<i32>, base: int, content: Seq<u8>, k: nat)
    ensures
        probes_written(v, base, content, k).len() == v.len(),
    decreases k,
{
    if k > 0 {
        lemma_probes_shape_len(v, base, content, (k - 1) as nat);
    }
}

/// Empty ruling: an input of length 0 is ruled `Empty`.
pub proof fn lemma_empty_ruling(config: &ModelConfig, content: Seq<u8>)
    requires
        content.len() == 0,
    ensures
        spec_extract(config, content) == Extracted::Ruled(ContentType::Empty),
{
}

/// Whitespace-only short-circuit: a non-empty input of whitespace alone, shorter than
/// `min_file_size_for_dl`, is ruled `Txt`, provided the position that decides the
/// short-circuit lies in the beginning band.
pub proof fn lemma_whitespace_ruling(config: &ModelConfig, content: Seq<u8>)
    requires
        config.wf(),
        0 < content.len() < config.min_file_size_for_dl,
        config.min_file_size_for_dl <= config.beg_size,
        forall|i: int| 0 <= i < content.len() ==> spec_is_whitespace(#[trigger] content[i]),
    ensures
        spec_extract(config, content) == Extracted::Ruled(ContentType::Txt),
{
    let first = first_block(config, content);
    assert forall|i: int| 0 <= i < first.len() implies spec_is_whitespace(#[trigger] first[i]) by {
        assert(first[i] == content[i]);
    }
    lemma_strip_whitespace(first);
    let j = config.min_file_size_for_dl - 1;
    let v0 = Seq::new(config.spec_features_size() as nat, |_k: int| config.padding_token);
    let v1 = band_write(v0, 0, config.beg_size as int, strip_front(first), 0);
    assert(v1[j] == config.padding_token);
    let mid_len = if config.mid_size < content.len() {
        config.mid_size as int
    } else {
        content.len() as int
    };
    let end_l = if config.end_size < strip_back(last_block(config, content)).len() {
        config.end_size as int
    } else {
        strip_back(last_block(config, content)).len() as int
    };
    assert(aligned_start(config.mid_size - mid_len, 1) >= 0) by (nonlinear_arith)
        requires
            config.mid_size - mid_len >= 0,
    ;
    assert(aligned_start(config.end_size - end_l, 2) >= 0) by (nonlinear_arith)
        requires
            config.end_size - end_l >= 0,
    ;
    let b = bands_of(config, content);
    assert(b[j] == config.padding_token);
    if config.use_inputs_at_offsets {
        lemma_probes_keep_prefix(
            b,
            config.beg_size + config.mid_size + config.end_size,
            content,
            PROBE_COUNT as nat,
            j,
        );
    }
    assert(features_of(config, content)[j] == config.padding_token);
    assert(vstd::utf8::partial_valid_utf8(first, 0)) by {
        assert(first.subrange(0, 0) =~= Seq::<u8>::empty());
    }
    vstd::utf8::partial_valid_utf8_extend_ascii_block(first, 0, first.len() as int);
    assert(first.subrange(0, first.len() as int) =~= first);
}

impl FeaturesOrRuled {
    /// Extracts the features from an input, or rules on its content type directly when the
    /// input is empty or too short for deep-learning.
    pub fn extract<T: SyncInputApi>(config: &ModelConfig, file: T) -> (r: Result<Self>)
        requires
            config.wf(),
        ensures
            r is Ok ==> r->Ok_0@ == spec_extract(config, file.content()),
            file.infallible() ==> r is Ok,
    {
        let mut file = file;
        let file_len = match file.length() {
            Ok(n) => n,
            Err(e) => {
                return Err(e);
            },
        };
        if file_len == 0 {
            return Ok(FeaturesOrRuled::Ruled(ContentType::Empty));
        }
        let (first_block, features) = match extract_features(config, &mut file, file_len) {
            Ok(x) => x,
            Err(e) => {
                return Err(e);
            },
        };
        proof {
            lemma_features_shape(config, file.content());
        }
        if features[config.min_file_size_for_dl - 1] != config.padding_token {
            return Ok(FeaturesOrRuled::Features(Features(features)));
        }
        let content_type = if is_utf8(first_block.as_slice()) {
            ContentType::Txt
        } else {
            ContentType::Unknown
        };
        Ok(FeaturesOrRuled::Ruled(content_type))
    }

    /// Extracts the features from a file (synchronously).
    ///
    /// Returns the content type directly if the file is not suited for deep-learning.
    pub fn extract_sync<T: SyncInput>(config: &ModelConfig, file: T) -> (r: Result<Self>)
        requires
            config.wf(),
        ensures
            r is Ok ==> r->Ok_0@ == spec_extract(config, file.content()),
            file.infallible() ==> r is Ok,
    {
        FeaturesOrRuled::extract(config, file)
    }
}

} // verus!
