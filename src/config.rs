//! Runtime parameters of the classifier.

use vstd::prelude::*;

use crate::content::{ContentType, CONTENT_TYPE_COUNT};
use crate::error::{Error, Result};

verus! {

/// Number of fixed-offset probes.
pub const PROBE_COUNT: usize = 4;

/// Number of bytes read by each probe.
pub const PROBE_SIZE: usize = 8;

/// Offset of the first probe.
pub const PROBE_BASE: usize = 0x8000;

/// Distance between two consecutive probes.
pub const PROBE_STRIDE: usize = 0x800;

/// Offset in the input of probe `k`.
pub open spec fn spec_probe_offset(k: int) -> int {
    PROBE_BASE + PROBE_STRIDE * k
}

/// Offset in the input of probe `k`.
pub fn probe_offset(k: usize) -> (r: usize)
    requires
        k < PROBE_COUNT,
    ensures
        r == spec_probe_offset(k as int),
{
    PROBE_BASE + PROBE_STRIDE * k
}

/// The value that `overrides` gives to `c`, the last one when several do, or `default`.
pub open spec fn override_of<V>(overrides: Seq<(ContentType, V)>, c: ContentType, default: V) -> V
    decreases overrides.len(),
{
    if overrides.len() == 0 {
        default
    } else if overrides.last().0 == c {
        overrides.last().1
    } else {
        override_of(overrides.drop_last(), c, default)
    }
}

/// Fills a table of the catalog with `default`, then applies `overrides` in order.
fn fill_table<V: Copy>(default: V, overrides: &[(ContentType, V)]) -> (r: Vec<V>)
    ensures
        r@.len() == CONTENT_TYPE_COUNT,
        forall|c: ContentType|
            #[trigger] r@[c.spec_index() as int] == override_of(overrides@, c, default),
{
    let mut table: Vec<V> = Vec::new();
    let mut i: usize = 0;
    while i < CONTENT_TYPE_COUNT
        invariant
            i <= CONTENT_TYPE_COUNT,
            table@.len() == i,
            forall|j: int| 0 <= j < i ==> table@[j] == default,
        decreases CONTENT_TYPE_COUNT - i,
    {
        table.push(default);
        i = i + 1;
    }
    let mut k: usize = 0;
    while k < overrides.len()
        invariant
            k <= overrides@.len(),
            table@.len() == CONTENT_TYPE_COUNT,
            forall|c: ContentType|
                #[trigger] table@[c.spec_index() as int] == override_of(
                    overrides@.subrange(0, k as int),
                    c,
                    default,
                ),
        decreases overrides@.len() - k,
    {
        let (c, v) = overrides[k];
        let ghost before = table@;
        table.set(c.index(), v);
        proof {
            let next = overrides@.subrange(0, k + 1);
            assert(next.drop_last() =~= overrides@.subrange(0, k as int));
            assert(next.last() == (c, v));
            assert forall|d: ContentType| #[trigger] table@[d.spec_index() as int] == override_of(
                next,
                d,
                default,
            ) by {
                if d != c {
                    assert(d.spec_index() != c.spec_index()) by {
                        if d.spec_index() == c.spec_index() {
                            lemma_index_injective(c, d);
                        }
                    }
                    assert(table@[d.spec_index() as int] == before[d.spec_index() as int]);
                }
            }
        }
        k = k + 1;
    }
    assert(overrides@.subrange(0, overrides@.len() as int) =~= overrides@);
    table
}

/// Runtime parameters of the classifier.
///
/// A score is the bit pattern of a non-negative `f32`: on such values the order of the
/// patterns as unsigned integers is the numeric order, so the library compares scores
/// as integers.
pub struct ModelConfig {
    /// Size of the band filled from the beginning of the input.
    pub beg_size: usize,
    /// Size of the band filled from the middle of the input.
    pub mid_size: usize,
    /// Size of the band filled from the end of the input.
    pub end_size: usize,
    /// Whether the fixed-offset probes are part of the features.
    pub use_inputs_at_offsets: bool,
    /// Inputs whose features leave position `min_file_size_for_dl - 1` padded are ruled.
    pub min_file_size_for_dl: usize,
    /// Value of the feature positions that no byte fills.
    pub padding_token: i32,
    /// Size of the windows read at the beginning and at the end of the input.
    pub block_size: usize,
    /// Confidence threshold of each content type, by catalog position.
    pub thresholds: Vec<u32>,
    /// Content type reported in place of each content type, by catalog position.
    pub overwrite_map: Vec<ContentType>,
    /// Content type of each output of the model, by output position.
    pub target_labels: Vec<ContentType>,
}

impl ModelConfig {
    /// Length of the probe bands.
    pub open spec fn spec_probes_size(&self) -> int {
        if self.use_inputs_at_offsets {
            PROBE_COUNT * PROBE_SIZE
        } else {
            0
        }
    }

    /// Length of a feature vector.
    pub open spec fn spec_features_size(&self) -> int {
        self.beg_size + self.mid_size + self.end_size + self.spec_probes_size()
    }

    /// The sizes of the bands, probes included, add up to a `usize`.
    pub open spec fn sizes_fit(&self) -> bool {
        self.beg_size + self.mid_size + self.end_size + PROBE_COUNT * PROBE_SIZE <= usize::MAX
    }

    /// The invariants of the configuration: every size fits in memory, the position that
    /// decides the short-circuit lies inside the features, the model has outputs, and the
    /// thresholds and the overwrite map are defined for every content type of the catalog.
    pub open spec fn wf(&self) -> bool {
        &&& self.sizes_fit()
        &&& 1 <= self.min_file_size_for_dl <= self.spec_features_size()
        &&& self.thresholds@.len() == CONTENT_TYPE_COUNT
        &&& self.overwrite_map@.len() == CONTENT_TYPE_COUNT
        &&& 1 <= self.target_labels@.len()
    }

    /// Threshold of a content type.
    pub open spec fn spec_threshold(&self, c: ContentType) -> u32 {
        self.thresholds@[c.spec_index() as int]
    }

    /// Content type reported in place of a content type.
    pub open spec fn spec_overwrite(&self, c: ContentType) -> ContentType {
        self.overwrite_map@[c.spec_index() as int]
    }

    /// Returns the length of a feature vector.
    pub fn features_size(&self) -> (r: usize)
        requires
            self.sizes_fit(),
        ensures
            r == self.spec_features_size(),
    {
        let probes: usize = if self.use_inputs_at_offsets {
            PROBE_COUNT * PROBE_SIZE
        } else {
            0
        };
        self.beg_size + self.mid_size + self.end_size + probes
    }

    /// Returns whether the configuration meets its invariants.
    pub fn is_valid(&self) -> (r: bool)
        ensures
            r == self.wf(),
    {
        if self.beg_size > usize::MAX - PROBE_COUNT * PROBE_SIZE {
            return false;
        }
        if self.mid_size > usize::MAX - PROBE_COUNT * PROBE_SIZE - self.beg_size {
            return false;
        }
        if self.end_size > usize::MAX - PROBE_COUNT * PROBE_SIZE - self.beg_size - self.mid_size {
            return false;
        }
        let size = self.features_size();
        1 <= self.min_file_size_for_dl && self.min_file_size_for_dl <= size
            && self.thresholds.len() == CONTENT_TYPE_COUNT
            && self.overwrite_map.len() == CONTENT_TYPE_COUNT && 1 <= self.target_labels.len()
    }

    /// Returns the configuration when it meets its invariants, and `ConfigError` otherwise.
    pub fn validate(self) -> (r: Result<ModelConfig>)
        ensures
            self.wf() ==> r == Ok::<ModelConfig, Error>(self),
            !self.wf() ==> r == Err::<ModelConfig, Error>(Error::ConfigError),
    {
        if self.is_valid() {
            Ok(self)
        } else {
            Err(Error::ConfigError)
        }
    }

    /// Assembles a configuration from its sizes and its tables: every threshold is
    /// `medium_confidence_threshold` unless `thresholds` gives another, and every content
    /// type is reported as itself unless `overwrites` sends it elsewhere. Fails with
    /// `ConfigError` when the result breaks the invariants.
    pub fn assemble(
        beg_size: usize,
        mid_size: usize,
        end_size: usize,
        use_inputs_at_offsets: bool,
        medium_confidence_threshold: u32,
        min_file_size_for_dl: usize,
        padding_token: i32,
        block_size: usize,
        thresholds: &[(ContentType, u32)],
        overwrites: &[(ContentType, ContentType)],
        target_labels: Vec<ContentType>,
    ) -> (r: Result<ModelConfig>)
        ensures
            r is Ok ==> {
                let c = r->Ok_0;
                &&& c.wf()
                &&& c.beg_size == beg_size && c.mid_size == mid_size && c.end_size == end_size
                &&& c.use_inputs_at_offsets == use_inputs_at_offsets
                &&& c.min_file_size_for_dl == min_file_size_for_dl
                &&& c.padding_token == padding_token && c.block_size == block_size
                &&& c.target_labels@ == target_labels@
                &&& forall|t: ContentType|
                    #[trigger] c.spec_threshold(t) == override_of(
                        thresholds@,
                        t,
                        medium_confidence_threshold,
                    )
                &&& forall|t: ContentType|
                    #[trigger] c.spec_overwrite(t) == override_of(overwrites@, t, t)
            },
            r is Err ==> r == Err::<ModelConfig, Error>(Error::ConfigError),
            r is Err <==> !{
                &&& beg_size + mid_size + end_size + PROBE_COUNT * PROBE_SIZE <= usize::MAX
                &&& 1 <= min_file_size_for_dl <= beg_size + mid_size + end_size + (
                if use_inputs_at_offsets {
                    PROBE_COUNT * PROBE_SIZE
                } else {
                    0
                })
                &&& 1 <= target_labels@.len()
            },
    {
        let thresholds = fill_table(medium_confidence_threshold, thresholds);
        let overwrite_map = identity_table(overwrites);
        let config = ModelConfig {
            beg_size,
            mid_size,
            end_size,
            use_inputs_at_offsets,
            min_file_size_for_dl,
            padding_token,
            block_size,
            thresholds,
            overwrite_map,
            target_labels,
        };
        config.validate()
    }

    /// Threshold of a content type.
    pub fn threshold(&self, c: ContentType) -> (r: u32)
        requires
            self.wf(),
        ensures
            r == self.spec_threshold(c),
    {
        self.thresholds[c.index()]
    }

    /// Content type reported in place of a content type.
    pub fn overwrite(&self, c: ContentType) -> (r: ContentType)
        requires
            self.wf(),
        ensures
            r == self.spec_overwrite(c),
    {
        self.overwrite_map[c.index()]
    }
}

/// Distinct content types have distinct positions.
pub proof fn lemma_index_injective(a: ContentType, b: ContentType)
    requires
        a.spec_index() == b.spec_index(),
    ensures
        a == b,
{
    a.lemma_index_round_trip();
    b.lemma_index_round_trip();
}

/// The identity table of the catalog, then `overwrites` applied in order.
fn identity_table(overwrites: &[(ContentType, ContentType)]) -> (r: Vec<ContentType>)
    ensures
        r@.len() == CONTENT_TYPE_COUNT,
        forall|c: ContentType| #[trigger] r@[c.spec_index() as int] == override_of(overwrites@, c, c),
{
    let mut table: Vec<ContentType> = Vec::new();
    let mut i: usize = 0;
    while i < CONTENT_TYPE_COUNT
        invariant
            i <= CONTENT_TYPE_COUNT,
            table@.len() == i,
            forall|j: int| 0 <= j < i ==> (#[trigger] table@[j]).spec_index() == j,
        decreases CONTENT_TYPE_COUNT - i,
    {
        table.push(ContentType::from_index(i));
        i = i + 1;
    }
    let mut k: usize = 0;
    assert forall|c: ContentType| #[trigger] table@[c.spec_index() as int] == override_of(
        overwrites@.subrange(0, 0),
        c,
        c,
    ) by {
        c.lemma_index_round_trip();
        lemma_index_injective(table@[c.spec_index() as int], c);
    }
    while k < overwrites.len()
        invariant
            k <= overwrites@.len(),
            table@.len() == CONTENT_TYPE_COUNT,
            forall|c: ContentType|
                #[trigger] table@[c.spec_index() as int] == override_of(
                    overwrites@.subrange(0, k as int),
                    c,
                    c,
                ),
        decreases overwrites@.len() - k,
    {
        let (c, v) = overwrites[k];
        let ghost before = table@;
        table.set(c.index(), v);
        proof {
            let next = overwrites@.subrange(0, k + 1);
            assert(next.drop_last() =~= overwrites@.subrange(0, k as int));
            assert(next.last() == (c, v));
            assert forall|d: ContentType| #[trigger] table@[d.spec_index() as int] == override_of(
                next,
                d,
                d,
            ) by {
                if d != c {
                    assert(d.spec_index() != c.spec_index()) by {
                        if d.spec_index() == c.spec_index() {
                            lemma_index_injective(c, d);
                        }
                    }
                    assert(table@[d.spec_index() as int] == before[d.spec_index() as int]);
                }
            }
        }
        k = k + 1;
    }
    assert(overwrites@.subrange(0, overwrites@.len() as int) =~= overwrites@);
    table
}

/// Catalog closure: a well-formed configuration defines a threshold and an overwrite
/// target for every content type of the catalog.
pub proof fn lemma_catalog_closure(config: &ModelConfig, c: ContentType)
    requires
        config.wf(),
    ensures
        (c.spec_index() as int) < config.thresholds@.len(),
        (c.spec_index() as int) < config.overwrite_map@.len(),
{
}

} // verus!
