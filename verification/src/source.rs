//! The source of rows that a materialization reads.

use crate::error::{CubeError, CubeErrorView};
use crate::value::{FieldValue, FieldValueView};
use crate::views::result_view;
use vstd::prelude::*;

verus! {

/// What a source of rows answers: how many rows it has, and what the field of
/// a given name holds in the row at a given index. Either answer may be a
/// failure.
pub struct RowSource {
    pub len: Result<usize, CubeErrorView>,
    pub get: spec_fn(int, Seq<char>) -> Result<FieldValueView, CubeErrorView>,
}

/// A sequence of rows with named fields, read one field at a time. To ask
/// does not change what a source answers.
pub trait ValueObject {
    /// What this source answers. A source that does not say is held to no
    /// answer in particular.
    open spec fn rows(&self) -> RowSource {
        arbitrary()
    }

    /// The number of rows.
    fn len(&mut self) -> (r: Result<usize, CubeError>)
        ensures
            final(self).rows() == old(self).rows(),
            result_view(r) == old(self).rows().len,
    ;

    /// What the field `field_name` holds in the row at `index`. A field that
    /// the row lacks holds null.
    fn get(&mut self, index: usize, field_name: &str) -> (r: Result<FieldValue, CubeError>)
        requires
            old(self).rows().len matches Ok(n) && index < n,
        ensures
            final(self).rows() == old(self).rows(),
            result_view(r) == (old(self).rows().get)(index as int, field_name@),
    ;
}

} // verus!
