//! Identification by the label classifier: the most probable label of each row of scores.

use vstd::prelude::*;

use crate::error::{Error, Result};
use crate::file::{argmax, best_index};
use crate::label::{Label, LABEL_COUNT};

verus! {

/// The result of a file type identification.
#[derive(Debug, Clone, Copy, PartialEq, Eq)]
pub struct Output {
    label: Label,
    score: u32,
}

impl Output {
    /// The most probable label.
    pub closed spec fn spec_label(&self) -> Label {
        self.label
    }

    /// The score of the most probable label.
    pub closed spec fn spec_score(&self) -> u32 {
        self.score
    }

    /// Returns the most probable label.
    pub fn label(&self) -> (r: Label)
        ensures
            r == self.spec_label(),
    {
        self.label
    }

    /// Returns the score, as the bit pattern of an `f32` between 0 and 1, of the most
    /// probable label.
    pub fn score(&self) -> (r: u32)
        ensures
            r == self.spec_score(),
    {
        self.score
    }

    /// Picks the most probable label of each of the `batch` rows of `LABEL_COUNT` scores in
    /// `output`, ties going to the earliest label. Fails with `RuntimeError` when the output
    /// does not have that shape.
    pub fn convert(output: &[u32], batch: usize) -> (r: Result<Vec<Output>>)
        ensures
            r is Ok <==> output@.len() == batch * LABEL_COUNT,
            r is Err ==> r == Err::<Vec<Output>, Error>(Error::RuntimeError),
            r is Ok ==> r->Ok_0@.len() == batch && forall|i: int|
                0 <= i < batch ==> {
                    let row = output@.subrange(i * LABEL_COUNT, i * LABEL_COUNT + LABEL_COUNT);
                    &&& (#[trigger] r->Ok_0@[i]).spec_label().spec_index() == best_index(
                        row,
                        LABEL_COUNT as int,
                    )
                    &&& r->Ok_0@[i].spec_score() == row[best_index(row, LABEL_COUNT as int)]
                },
    {
        let n = LABEL_COUNT;
        let out_len = output.len();
        match batch.checked_mul(n) {
            Some(total) => {
                if total != out_len {
                    return Err(Error::RuntimeError);
                }
            },
            None => {
                return Err(Error::RuntimeError);
            },
        }
        let mut results: Vec<Output> = Vec::new();
        let mut i: usize = 0;
        let mut start: usize = 0;
        while i < batch
            invariant
                i <= batch,
                n == LABEL_COUNT,
                output@.len() == batch * n,
                out_len == output@.len(),
                start == i * n,
                results@.len() == i,
                forall|j: int|
                    0 <= j < i ==> {
                        let row = output@.subrange(j * n, j * n + n);
                        &&& (#[trigger] results@[j]).label.spec_index() == best_index(
                            row,
                            n as int,
                        )
                        &&& results@[j].score == row[best_index(row, n as int)]
                    },
            decreases batch - i,
        {
            assert((i + 1) * n <= batch * n) by (nonlinear_arith)
                requires
                    i < batch,
            ;
            assert((i + 1) * n == i * n + n) by (nonlinear_arith);
            let best = argmax(output, start, n);
            let ghost row = output@.subrange(start as int, start + n);
            assert(row[best as int] == output@[start + best]);
            let label = Label::from_index(best);
            let score = output[start + best];
            results.push(Output { label, score });
            start = start + n;
            i = i + 1;
        }
        Ok(results)
    }
}

/// The result of an identification by a configured classifier.
pub struct MagikaOutput {
    /// The name of the most probable label.
    pub label: String,
    /// The score of the most probable label, as the bit pattern of an `f32`.
    pub score: u32,
}

/// Labels of the classifier, as its configuration names them.
pub struct TargetLabelsInfo {
    /// The label of each output of the model, by output position.
    pub target_labels_space: Vec<String>,
}

/// What the configuration records of the training data set.
pub struct TrainDatasetInfo {
    /// The labels of the classifier.
    pub target_labels_info: TargetLabelsInfo,
}

/// Configuration of the label classifier.
pub struct MagikaConfig {
    /// What the configuration records of the training data set.
    pub train_dataset_info: TrainDatasetInfo,
}

impl MagikaConfig {
    /// Returns the name of the label of output `index`.
    pub fn target_label(&self, index: usize) -> (r: &str)
        requires
            index < self.train_dataset_info.target_labels_info.target_labels_space@.len(),
        ensures
            r@ == self.train_dataset_info.target_labels_info.target_labels_space@[index as int]@,
    {
        self.train_dataset_info.target_labels_info.target_labels_space[index].as_str()
    }

    /// The names of the labels, by output position.
    pub open spec fn labels(&self) -> Seq<String> {
        self.train_dataset_info.target_labels_info.target_labels_space@
    }

    /// Names the most probable label of each of the `batch` rows of scores in `output`, one
    /// score per label, ties going to the earliest label. Fails with `RuntimeError` when
    /// the output does not have that shape.
    pub fn convert_output(&self, output: &[u32], batch: usize) -> (r: Result<Vec<MagikaOutput>>)
        requires
            1 <= self.labels().len(),
        ensures
            r is Ok <==> output@.len() == batch * self.labels().len(),
            r is Err ==> r == Err::<Vec<MagikaOutput>, Error>(Error::RuntimeError),
            r is Ok ==> r->Ok_0@.len() == batch && forall|i: int|
                0 <= i < batch ==> {
                    let n = self.labels().len() as int;
                    let row = output@.subrange(i * n, i * n + n);
                    &&& (#[trigger] r->Ok_0@[i]).label@ == self.labels()[best_index(row, n)]@
                    &&& r->Ok_0@[i].score == row[best_index(row, n)]
                },
    {
        let n = self.train_dataset_info.target_labels_info.target_labels_space.len();
        let out_len = output.len();
        match batch.checked_mul(n) {
            Some(total) => {
                if total != out_len {
                    return Err(Error::RuntimeError);
                }
            },
            None => {
                return Err(Error::RuntimeError);
            },
        }
        let mut results: Vec<MagikaOutput> = Vec::new();
        let mut i: usize = 0;
        let mut start: usize = 0;
        while i < batch
            invariant
                i <= batch,
                n == self.labels().len(),
                1 <= n,
                output@.len() == batch * n,
                out_len == output@.len(),
                start == i * n,
                results@.len() == i,
                forall|j: int|
                    0 <= j < i ==> {
                        let row = output@.subrange(j * n, j * n + n);
                        &&& (#[trigger] results@[j]).label@ == self.labels()[best_index(
                            row,
                            n as int,
                        )]@
                        &&& results@[j].score == row[best_index(row, n as int)]
                    },
            decreases batch - i,
        {
            assert((i + 1) * n <= batch * n) by (nonlinear_arith)
                requires
                    i < batch,
            ;
            assert((i + 1) * n == i * n + n) by (nonlinear_arith);
            let best = argmax(output, start, n);
            let ghost row = output@.subrange(start as int, start + n);
            assert(row[best as int] == output@[start + best]);
            let label = self.target_label(best).to_owned();
            let score = output[start + best];
            results.push(MagikaOutput { label, score });
            start = start + n;
            i = i + 1;
        }
        Ok(results)
    }
}

} // verus!
