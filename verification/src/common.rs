use vstd::prelude::*;

verus! {

/// Why a decode was abandoned. Offsets and lengths count bytes.
#[derive(Debug)]
pub enum DecodeError {
    /// The buffer ends before a structurally required extent: `needed` bytes
    /// were required from `offset` on, in a buffer of `len` bytes.
    Truncated { offset: u64, needed: u64, len: u64 },
    /// An accessor's window of `width` bytes at `offset` leaves a buffer or
    /// row of `len` bytes.
    OutOfRange { offset: u64, width: u64, len: u64 },
    /// The bytes that start at `offset` were expected to be text and are not
    /// valid UTF-8.
    Encoding { offset: u64 },
    /// No chunk carries the tag that the schema requires.
    MissingChunk { tag: String },
    /// The tags present satisfy no variant's marker set.
    UnrecognizedVariant,
    /// The dependent file of this name could not be loaded.
    DependencyLoadFailed { name: String },
}

/// The mathematical content of a [`DecodeError`].
pub enum Failure {
    Truncated { offset: int, needed: int, len: int },
    OutOfRange { offset: int, width: int, len: int },
    Encoding { offset: int },
    MissingChunk { tag: Seq<char> },
    UnrecognizedVariant,
    DependencyLoadFailed { name: Seq<char> },
}

impl View for DecodeError {
    type V = Failure;

    open spec fn view(&self) -> Failure {
        match *self {
            DecodeError::Truncated { offset, needed, len } => Failure::Truncated {
                offset: offset as int,
                needed: needed as int,
                len: len as int,
            },
            DecodeError::OutOfRange { offset, width, len } => Failure::OutOfRange {
                offset: offset as int,
                width: width as int,
                len: len as int,
            },
            DecodeError::Encoding { offset } => Failure::Encoding { offset: offset as int },
            DecodeError::MissingChunk { tag } => Failure::MissingChunk { tag: tag@ },
            DecodeError::UnrecognizedVariant => Failure::UnrecognizedVariant,
            DecodeError::DependencyLoadFailed { name } => Failure::DependencyLoadFailed {
                name: name@,
            },
        }
    }
}

/// The result of every decoding function.
pub type R<T> = Result<T, DecodeError>;

/// A result whose value is plain data, with the error seen through its view.
pub open spec fn plain<T>(r: R<T>) -> Result<T, Failure> {
    match r {
        Ok(v) => Ok(v),
        Err(e) => Err(e@),
    }
}

/// A result with both sides seen through their views.
pub open spec fn viewed<T: View>(r: R<T>) -> Result<T::V, Failure> {
    match r {
        Ok(v) => Ok(v@),
        Err(e) => Err(e@),
    }
}

/// A result with the value seen through its deep view, for collections of
/// values that have views of their own.
pub open spec fn deep<T: DeepView>(r: R<T>) -> Result<T::V, Failure> {
    match r {
        Ok(v) => Ok(v.deep_view()),
        Err(e) => Err(e@),
    }
}

/// Item `k` is the first failure among the items.
pub open spec fn first_failure<T>(items: Seq<Result<T, Failure>>, k: int) -> bool {
    &&& 0 <= k < items.len()
    &&& items[k] is Err
    &&& forall|j: int| 0 <= j < k ==> (#[trigger] items[j]) is Ok
}

/// All or nothing: the values of the items, in order, where every item is
/// a value; otherwise the failure of the first item that is one.
pub open spec fn collect<T>(items: Seq<Result<T, Failure>>) -> Result<Seq<T>, Failure> {
    if forall|k: int| 0 <= k < items.len() ==> (#[trigger] items[k]) is Ok {
        Ok(Seq::new(items.len(), |k: int| items[k]->Ok_0))
    } else {
        Err(items[choose|k: int| first_failure(items, k)]->Err_0)
    }
}

/// A failure after only values is the failure that `collect` reports.
pub proof fn lemma_collect_fails_at<T>(items: Seq<Result<T, Failure>>, k: int)
    requires
        first_failure(items, k),
    ensures
        collect(items) == Err::<Seq<T>, Failure>(items[k]->Err_0),
{
    let chosen = choose|i: int| first_failure(items, i);
    assert(chosen == k);
}

} // verus!
