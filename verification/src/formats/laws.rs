//! What holds of every load.

use crate::formats::adt::adt_of_bytes;
use crate::formats::chunk::container;
use crate::formats::dbc::dbc::decoded;
use crate::formats::dbc::{table_of, Column};
use crate::formats::wmo::begun;
use vstd::prelude::*;

verus! {

/// Loading is a function of the contents: two buffers that hold the same
/// bytes decode to equal results, be it to the same value or to the same
/// failure. Every loader's result is one of these functions of its input,
/// so loading a file twice gives equal results.
pub proof fn lemma_same_contents_same_result(
    a: Seq<u8>,
    b: Seq<u8>,
    file_name: Seq<char>,
    plan: Seq<Column>,
)
    requires
        a.len() == b.len(),
        forall|i: int| 0 <= i < a.len() ==> a[i] == b[i],
    ensures
        container(a) == container(b),
        adt_of_bytes(a) == adt_of_bytes(b),
        begun(file_name, a) == begun(file_name, b),
        table_of(a) == table_of(b),
        decoded(a, plan) == decoded(b, plan),
{
    assert(a =~= b);
}

} // verus!
