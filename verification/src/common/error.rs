//! An error that hands the data back.
use vstd::prelude::*;

verus! {

/// Type that allows to return data with the error
///
/// This is useful since commands like `new()` will take ownership of the data.
/// Using this as error type allows to continue using the data afterward.
#[derive(Debug)]
pub struct ErrorWithData<E> {
    pub err: E,
    pub data: Vec<u8>,
}

impl<E> ErrorWithData<E> {
    pub fn new(err: E, data: Vec<u8>) -> (error: Self)
        ensures
            error.err == err,
            error.data == data,
    {
        Self { err, data }
    }

    pub fn err(&self) -> (err: &E)
        ensures
            *err == self.err,
    {
        &self.err
    }

    pub fn into_inner(self) -> (data: Vec<u8>)
        ensures
            data == self.data,
    {
        self.data
    }

    /// The same data with the error that `op` makes of this one.
    pub fn map_err<F, O: FnOnce(E) -> F>(self, op: O) -> (mapped: ErrorWithData<F>)
        requires
            op.requires((self.err,)),
        ensures
            op.ensures((self.err,), mapped.err),
            mapped.data == self.data,
    {
        let err = op(self.err);
        ErrorWithData { err, data: self.data }
    }
}

} // verus!
