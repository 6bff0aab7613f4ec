//! Predicted labels paired with the labels they are scored against.
use vstd::prelude::*;

verus! {

/// A model's label for one row and the row's true label, when known.
#[derive(Debug, Clone, Copy, PartialEq, Eq, Structural)]
pub struct Prediction {
    pub predicted: i32,
    pub actual: Option<i32>,
}

/// Pairs each predicted label with the true label of the same row.
/// The model answers one label per feature row, and each row has its label.
pub fn pair_predictions(predicted: &Vec<i32>, labels: &Vec<i32>) -> (r: Vec<Prediction>)
    requires
        predicted@.len() == labels@.len(),
    ensures
        r@.len() == predicted@.len(),
        forall|i: int| 0 <= i < r@.len() ==> #[trigger] r@[i] == (Prediction {
            predicted: predicted@[i],
            actual: Some(labels@[i]),
        }),
{
    let mut out: Vec<Prediction> = Vec::new();
    let mut i: usize = 0;
    while i < predicted.len()
        invariant
            i <= predicted@.len(),
            predicted@.len() == labels@.len(),
            out@.len() == i,
            forall|j: int| 0 <= j < i ==> #[trigger] out@[j] == (Prediction {
                predicted: predicted@[j],
                actual: Some(labels@[j]),
            }),
        decreases predicted@.len() - i,
    {
        out.push(Prediction { predicted: predicted[i], actual: Some(labels[i]) });
        i = i + 1;
    }
    out
}

} // verus!
