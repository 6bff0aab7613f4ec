//! The checks a training table passes before it is written out.
use vstd::prelude::*;

verus! {

/// Why a feature table cannot be written.
#[derive(Debug, Clone, Copy, PartialEq, Eq, Structural)]
pub enum FeatureTableError {
    /// Features and labels differ in number.
    CountMismatch { features: usize, labels: usize },
    /// There are no rows.
    Empty,
    /// Rows differ in width.
    RaggedRows,
}

/// Whether every row has the width of the first.
pub open spec fn rows_uniform<T>(rows: Seq<Vec<T>>) -> bool {
    forall|i: int| 0 <= i < rows.len() ==> (#[trigger] rows[i])@.len() == rows[0]@.len()
}

/// The outcome of checking a table: a count mismatch first, then emptiness,
/// then ragged rows; otherwise the width of its rows.
pub open spec fn spec_check_feature_table<T>(rows: Seq<Vec<T>>, n_labels: nat) -> Result<usize, FeatureTableError> {
    if rows.len() != n_labels {
        Err(FeatureTableError::CountMismatch { features: rows.len() as usize, labels: n_labels as usize })
    } else if rows.len() == 0 {
        Err(FeatureTableError::Empty)
    } else if !rows_uniform(rows) {
        Err(FeatureTableError::RaggedRows)
    } else {
        Ok(rows[0]@.len() as usize)
    }
}

/// Checks that there is one label per row, at least one row, and that all
/// rows have the same width; answers the width.
pub fn check_feature_table<T>(features: &Vec<Vec<T>>, labels: &Vec<i32>) -> (r: Result<usize, FeatureTableError>)
    ensures
        r == spec_check_feature_table(features@, labels@.len()),
{
    if features.len() != labels.len() {
        return Err(FeatureTableError::CountMismatch { features: features.len(), labels: labels.len() });
    }
    if features.len() == 0 {
        return Err(FeatureTableError::Empty);
    }
    let feature_count = features[0].len();
    let mut i: usize = 0;
    while i < features.len()
        invariant
            0 < features@.len(),
            features@.len() == labels@.len(),
            i <= features@.len(),
            feature_count == features@[0]@.len(),
            forall|j: int| 0 <= j < i ==> (#[trigger] features@[j])@.len() == feature_count,
        decreases features@.len() - i,
    {
        if features[i].len() != feature_count {
            assert(!rows_uniform(features@)) by {
                assert(features@[i as int]@.len() != features@[0]@.len());
            }
            return Err(FeatureTableError::RaggedRows);
        }
        i = i + 1;
    }
    Ok(feature_count)
}

} // verus!
