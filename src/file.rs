//! Outcomes of an identification and the post-classification of model scores.

use vstd::prelude::*;

use crate::config::ModelConfig;
use crate::content::{directory_info, spec_directory_info, spec_symlink_info, symlink_info};
use crate::content::{ContentType, TypeInfo};
use crate::error::{Error, Result};
use crate::input::Features;

verus! {

/// Score of an outcome decided without the model: the bit pattern of `1.0f32`.
pub const SCORE_ONE: u32 = 0x3F80_0000;

/// File types.
///
/// The word file is used in the Linux sense where everything is a file. This could be
/// equivalently understood as a path.
#[derive(Debug, Clone, Copy, PartialEq, Eq)]
pub enum FileType {
    /// The file is a directory.
    Directory,
    /// The file is a symbolic link.
    Symlink,
    /// The file is a regular file and was identified using AI.
    Inferred(InferredType),
    /// The file is a regular file and was identified using rules.
    Ruled(ContentType),
}

/// Content type identified using AI.
#[derive(Debug, Clone, Copy, PartialEq, Eq)]
pub struct InferredType {
    /// The final content type and the reason, when it differs from the inferred one.
    pub content_type: Option<(ContentType, OverwriteReason)>,
    /// The inferred content type.
    pub inferred_type: ContentType,
    /// The inference score, as the bit pattern of an `f32` between 0 and 1.
    pub score: u32,
}

/// Reason to overwrite an inferred content type.
#[derive(Debug, Clone, Copy, PartialEq, Eq)]
pub enum OverwriteReason {
    /// The inference score is too low for the inferred content type.
    LowConfidence,
    /// The inferred content type is not canonical.
    OverwriteMap,
}

impl InferredType {
    /// The final content type.
    pub open spec fn spec_content_type(&self) -> ContentType {
        match self.content_type {
            Some((x, _)) => x,
            None => self.inferred_type,
        }
    }

    /// Returns the content type.
    pub fn content_type(&self) -> (r: ContentType)
        ensures
            r == self.spec_content_type(),
    {
        match self.content_type {
            Some((x, _)) => x,
            None => self.inferred_type,
        }
    }
}

impl FileType {
    /// The content type of a regular file.
    pub open spec fn spec_content_type(&self) -> Option<ContentType> {
        match self {
            FileType::Directory => None,
            FileType::Symlink => None,
            FileType::Inferred(x) => Some(x.spec_content_type()),
            FileType::Ruled(x) => Some(*x),
        }
    }

    /// The information reported for the file type.
    pub open spec fn spec_info(&self) -> TypeInfo {
        match self {
            FileType::Directory => spec_directory_info(),
            FileType::Symlink => spec_symlink_info(),
            FileType::Inferred(x) => x.spec_content_type().spec_info(),
            FileType::Ruled(x) => x.spec_info(),
        }
    }

    /// The score of the identification.
    pub open spec fn spec_score(&self) -> u32 {
        match self {
            FileType::Inferred(x) => x.score,
            _ => SCORE_ONE,
        }
    }

    /// Returns the content type for regular files.
    pub fn content_type(&self) -> (r: Option<ContentType>)
        ensures
            r == self.spec_content_type(),
    {
        match self {
            FileType::Directory => None,
            FileType::Symlink => None,
            FileType::Inferred(x) => Some(x.content_type()),
            FileType::Ruled(x) => Some(*x),
        }
    }

    /// Returns the file type information.
    pub fn info(&self) -> (r: TypeInfo)
        ensures
            r == self.spec_info(),
    {
        match self {
            FileType::Directory => directory_info(),
            FileType::Symlink => symlink_info(),
            FileType::Inferred(x) => x.content_type().info(),
            FileType::Ruled(x) => x.info(),
        }
    }

    /// Returns the score of the identification, as the bit pattern of an `f32` between 0
    /// and 1.
    ///
    /// If the model was run, this is the model score. Otherwise this is 1.
    pub fn score(&self) -> (r: u32)
        ensures
            r == self.spec_score(),
    {
        match self {
            FileType::Inferred(x) => x.score,
            _ => SCORE_ONE,
        }
    }
}

/// Position of the first maximum among the first `n` scores.
pub open spec fn best_index(scores: Seq<u32>, n: int) -> int
    decreases n,
{
    if n <= 1 {
        0
    } else {
        let b = best_index(scores, n - 1);
        if scores[n - 1] > scores[b] {
            n - 1
        } else {
            b
        }
    }
}

/// The content type that the model's best output stands for.
pub open spec fn spec_raw(config: &ModelConfig, scores: Seq<u32>) -> ContentType {
    config.target_labels@[best_index(scores, scores.len() as int)]
}

/// The final content type and reason before the unchanged case is dropped: `Txt` or
/// `Unknown` under the threshold, else the overwrite target when it differs.
pub open spec fn spec_change(config: &ModelConfig, raw: ContentType, score: u32) -> Option<
    (ContentType, OverwriteReason),
> {
    if score < config.spec_threshold(raw) {
        Some(
            (
                if raw.spec_info().is_text {
                    ContentType::Txt
                } else {
                    ContentType::Unknown
                },
                OverwriteReason::LowConfidence,
            ),
        )
    } else if config.spec_overwrite(raw) != raw {
        Some((config.spec_overwrite(raw), OverwriteReason::OverwriteMap))
    } else {
        None
    }
}

/// What the post-classifier makes of one row of scores.
pub open spec fn spec_classify(config: &ModelConfig, scores: Seq<u32>) -> InferredType {
    let raw = spec_raw(config, scores);
    let score = scores[best_index(scores, scores.len() as int)];
    let change = spec_change(config, raw, score);
    InferredType {
        content_type: match change {
            Some((x, reason)) => if x == raw {
                None
            } else {
                Some((x, reason))
            },
            None => None,
        },
        inferred_type: raw,
        score,
    }
}

/// The first maximum lies in the range and no score beats it.
proof fn lemma_best_index(scores: Seq<u32>, n: int)
    requires
        1 <= n <= scores.len(),
    ensures
        0 <= best_index(scores, n) < n,
        forall|j: int| 0 <= j < n ==> #[trigger] scores[j] <= scores[best_index(scores, n)],
        forall|j: int| 0 <= j < best_index(scores, n) ==> #[trigger] scores[j] < scores[best_index(scores, n)],
    decreases n,
{
    if n > 1 {
        lemma_best_index(scores, n - 1);
    }
}

/// Argmax with ties broken toward the earliest position: the best score of the row is at
/// the returned position, no score is greater, and every score before it is smaller.
pub proof fn lemma_argmax(scores: Seq<u32>)
    requires
        1 <= scores.len(),
    ensures
        0 <= best_index(scores, scores.len() as int) < scores.len(),
        forall|j: int|
            0 <= j < scores.len() ==> #[trigger] scores[j] <= scores[best_index(
                scores,
                scores.len() as int,
            )],
        forall|j: int|
            0 <= j < best_index(scores, scores.len() as int) ==> #[trigger] scores[j] < scores[best_index(
                scores,
                scores.len() as int,
            )],
{
    lemma_best_index(scores, scores.len() as int);
}

/// Returns the position of the first maximum among the `n` scores that start at `start`.
pub fn argmax(scores: &[u32], start: usize, n: usize) -> (r: usize)
    requires
        1 <= n,
        start + n <= scores@.len(),
    ensures
        r == best_index(scores@.subrange(start as int, start + n), n as int),
        r < n,
{
    let len = scores.len();
    let ghost row = scores@.subrange(start as int, start + n);
    let mut best: usize = 0;
    let mut i: usize = 1;
    while i < n
        invariant
            1 <= i <= n,
            start + n <= scores@.len(),
            len == scores@.len(),
            row == scores@.subrange(start as int, start + n),
            best == best_index(row, i as int),
            best < i,
        decreases n - i,
    {
        proof {
            lemma_best_index(row, i as int);
        }
        if scores[start + i] > scores[start + best] {
            best = i;
        }
        i = i + 1;
    }
    proof {
        lemma_best_index(row, n as int);
    }
    best
}

/// Classifies the row of `target_labels.len()` scores that starts at `start`.
pub fn classify(config: &ModelConfig, scores: &[u32], start: usize) -> (r: InferredType)
    requires
        config.wf(),
        start + config.target_labels@.len() <= scores@.len(),
    ensures
        r == spec_classify(
            config,
            scores@.subrange(start as int, start + config.target_labels@.len()),
        ),
{
    let n = config.target_labels.len();
    let len = scores.len();
    let best = argmax(scores, start, n);
    proof {
        lemma_best_index(scores@.subrange(start as int, start + n), n as int);
    }
    let score = scores[start + best];
    let inferred_type = config.target_labels[best];
    let change = if score < config.threshold(inferred_type) {
        let is_text = inferred_type.info().is_text;
        Some(
            (
                if is_text {
                    ContentType::Txt
                } else {
                    ContentType::Unknown
                },
                OverwriteReason::LowConfidence,
            ),
        )
    } else {
        let overwrite = config.overwrite(inferred_type);
        if overwrite != inferred_type {
            Some((overwrite, OverwriteReason::OverwriteMap))
        } else {
            None
        }
    };
    let content_type = match change {
        Some((x, reason)) => if x == inferred_type {
            None
        } else {
            Some((x, reason))
        },
        None => None,
    };
    InferredType { content_type, inferred_type, score }
}

/// The feature vectors `fs[0..i)` laid end to end.
pub open spec fn concat_features(fs: Seq<Features>, i: int) -> Seq<i32>
    decreases i,
{
    if i <= 0 {
        Seq::empty()
    } else {
        concat_features(fs, i - 1) + fs[i - 1].0@
    }
}

/// Every feature vector of the batch has `features_size` entries.
pub open spec fn batch_shaped(config: &ModelConfig, fs: Seq<Features>) -> bool {
    forall|i: int| 0 <= i < fs.len() ==> (#[trigger] fs[i]).0@.len() == config.spec_features_size()
}

/// Lays the feature vectors of a batch end to end, as the rows of a
/// `[batch, features_size]` tensor. Fails with `ShapeError` when a vector has another length.
pub fn batch_input(config: &ModelConfig, features: &[Features]) -> (r: Result<Vec<i32>>)
    requires
        config.wf(),
    ensures
        r is Ok <==> batch_shaped(config, features@),
        r is Ok ==> r->Ok_0@ == concat_features(features@, features@.len() as int),
        r is Err ==> r == Err::<Vec<i32>, Error>(Error::ShapeError),
{
    let size = config.features_size();
    let mut input: Vec<i32> = Vec::new();
    let mut i: usize = 0;
    while i < features.len()
        invariant
            i <= features@.len(),
            size == config.spec_features_size(),
            forall|j: int| 0 <= j < i ==> (#[trigger] features@[j]).0@.len() == size,
            input@ == concat_features(features@, i as int),
        decreases features@.len() - i,
    {
        let row = &features[i].0;
        if row.len() != size {
            return Err(Error::ShapeError);
        }
        let ghost before = input@;
        let mut k: usize = 0;
        while k < row.len()
            invariant
                k <= row@.len(),
                input@ == before + row@.subrange(0, k as int),
            decreases row@.len() - k,
        {
            input.push(row[k]);
            k = k + 1;
            assert(input@ =~= before + row@.subrange(0, k as int));
        }
        assert(row@.subrange(0, row@.len() as int) =~= row@);
        i = i + 1;
    }
    Ok(input)
}

impl From<ContentType> for FileType {
    fn from(content_type: ContentType) -> (r: FileType)
        ensures
            r == FileType::Ruled(content_type),
    {
        FileType::Ruled(content_type)
    }
}

impl vstd::std_specs::convert::FromSpecImpl<ContentType> for FileType {
    open spec fn obeys_from_spec() -> bool {
        true
    }

    open spec fn from_spec(content_type: ContentType) -> FileType {
        FileType::Ruled(content_type)
    }
}

/// What a path is before its content is read.
pub open spec fn spec_path_ruling(is_dir: bool, is_symlink: bool) -> Option<FileType> {
    if is_dir {
        Some(FileType::Directory)
    } else if is_symlink {
        Some(FileType::Symlink)
    } else {
        None
    }
}

/// Rules on a path from its metadata: a directory is `Directory`, a symbolic link (when
/// links are not followed) is `Symlink`, and a regular file is left to its content.
pub fn path_ruling(is_dir: bool, is_symlink: bool) -> (r: Option<FileType>)
    ensures
        r == spec_path_ruling(is_dir, is_symlink),
{
    if is_dir {
        Some(FileType::Directory)
    } else if is_symlink {
        Some(FileType::Symlink)
    } else {
        None
    }
}

impl FileType {
    /// Post-classifies the model output of a batch: `output` holds `batch` rows of
    /// `target_labels.len()` scores, and row `i` becomes outcome `i`. Fails with
    /// `RuntimeError` when the output does not have that shape.
    pub fn convert(config: &ModelConfig, output: &[u32], batch: usize) -> (r: Result<Vec<FileType>>)
        requires
            config.wf(),
        ensures
            r is Ok <==> output@.len() == batch * config.target_labels@.len(),
            r is Err ==> r == Err::<Vec<FileType>, Error>(Error::RuntimeError),
            r is Ok ==> r->Ok_0@.len() == batch && forall|i: int|
                0 <= i < batch ==> #[trigger] r->Ok_0@[i] == FileType::Inferred(
                    spec_classify(
                        config,
                        output@.subrange(
                            i * config.target_labels@.len(),
                            i * config.target_labels@.len() + config.target_labels@.len(),
                        ),
                    ),
                ),
    {
        let n = config.target_labels.len();
        let out_len = output.len();
        match batch.checked_mul(n) {
            Some(total) => {
                if total != output.len() {
                    return Err(Error::RuntimeError);
                }
            },
            None => {
                return Err(Error::RuntimeError);
            },
        }
        let mut results: Vec<FileType> = Vec::new();
        let mut i: usize = 0;
        let mut start: usize = 0;
        while i < batch
            invariant
                i <= batch,
                n == config.target_labels@.len(),
                1 <= n,
                output@.len() == batch * n,
                out_len == output@.len(),
                start == i * n,
                config.wf(),
                results@.len() == i,
                forall|j: int|
                    0 <= j < i ==> #[trigger] results@[j] == FileType::Inferred(
                        spec_classify(config, output@.subrange(j * n, j * n + n)),
                    ),
            decreases batch - i,
        {
            assert((i + 1) * n <= batch * n) by (nonlinear_arith)
                requires
                    i < batch,
                    n >= 1,
            ;
            assert((i + 1) * n == i * n + n) by (nonlinear_arith);
            let inferred = classify(config, output, start);
            results.push(FileType::Inferred(inferred));
            start = start + n;
            i = i + 1;
        }
        Ok(results)
    }
}

/// Determinism: the outcome of an input is a function of the configuration and of its
/// bytes alone, and the outcome of a row of model scores is a function of the
/// configuration and of that row alone.
pub proof fn lemma_determinism(
    config: &ModelConfig,
    a: Seq<u8>,
    b: Seq<u8>,
    row_a: Seq<u32>,
    row_b: Seq<u32>,
)
    requires
        config.wf(),
        a == b,
        row_a == row_b,
    ensures
        crate::input::spec_extract(config, a) == crate::input::spec_extract(config, b),
        spec_classify(config, row_a) == spec_classify(config, row_b),
{
}

/// Threshold rule: when the best score is under the threshold of the inferred content
/// type, the final type is `Txt` for a text type and `Unknown` otherwise, with reason
/// `LowConfidence`, whenever that differs from the inferred type.
pub proof fn lemma_threshold_rule(config: &ModelConfig, scores: Seq<u32>)
    requires
        config.wf(),
        scores.len() == config.target_labels@.len(),
        scores[best_index(scores, scores.len() as int)] < config.spec_threshold(
            spec_raw(config, scores),
        ),
        spec_raw(config, scores) != (if spec_raw(config, scores).spec_info().is_text {
            ContentType::Txt
        } else {
            ContentType::Unknown
        }),
    ensures
        spec_classify(config, scores).content_type == Some(
            (
                if spec_raw(config, scores).spec_info().is_text {
                    ContentType::Txt
                } else {
                    ContentType::Unknown
                },
                OverwriteReason::LowConfidence,
            ),
        ),
{
}

/// Overwrite rule: when the best score reaches the threshold of the inferred content type
/// and the overwrite map sends that type elsewhere, the final type is the overwrite target,
/// with reason `OverwriteMap`.
pub proof fn lemma_overwrite_rule(config: &ModelConfig, scores: Seq<u32>)
    requires
        config.wf(),
        scores.len() == config.target_labels@.len(),
        scores[best_index(scores, scores.len() as int)] >= config.spec_threshold(
            spec_raw(config, scores),
        ),
        config.spec_overwrite(spec_raw(config, scores)) != spec_raw(config, scores),
    ensures
        spec_classify(config, scores).content_type == Some(
            (config.spec_overwrite(spec_raw(config, scores)), OverwriteReason::OverwriteMap),
        ),
{
}

} // verus!
