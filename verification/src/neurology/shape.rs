//! Positions in a square image, and the square matrix of a neuron's weights.

use crate::neurology::synapse::Synapse;
use vstd::prelude::*;

verus! {

/// The position in row-major order of the pixel in column `x` of row `y`.
pub open spec fn flat_index(side_length: nat, x: nat, y: nat) -> nat {
    y * side_length + x
}

/// The weights of the synapses, in order.
pub open spec fn weights_of(synapses: Seq<Synapse>) -> Seq<u32> {
    Seq::new(synapses.len(), |i: int| synapses[i].weight)
}

/// Row `j` of the square matrix: the values at `j * side_length` and after.
pub open spec fn matrix_row(values: Seq<u32>, side_length: nat, j: int) -> Seq<u32> {
    Seq::new(side_length, |i: int| values[j * side_length + i])
}

/// The values as a square matrix in row-major order.
pub open spec fn reshaped(values: Seq<u32>, side_length: nat) -> Seq<Seq<u32>> {
    Seq::new(side_length, |j: int| matrix_row(values, side_length, j))
}

/// The first `rows` rows of the reshaped matrix, laid end to end, are the
/// first `rows * side_length` values.
proof fn lemma_rows_flatten(values: Seq<u32>, side_length: nat, rows: nat)
    requires
        values.len() == side_length * side_length,
        rows <= side_length,
    ensures
        rows * side_length <= values.len(),
        reshaped(values, side_length).take(rows as int).flatten() == values.take(
            (rows * side_length) as int,
        ),
    decreases rows,
{
    let matrix = reshaped(values, side_length);
    assert(rows * side_length <= side_length * side_length) by (nonlinear_arith)
        requires
            rows <= side_length,
    ;
    if rows > 0 {
        let k = (rows - 1) as nat;
        lemma_rows_flatten(values, side_length, k);
        assert(matrix.take(rows as int) =~= matrix.take(k as int).push(matrix[k as int]));
        matrix.take(k as int).lemma_flatten_push(matrix[k as int]);
        assert(rows * side_length == k * side_length + side_length) by (nonlinear_arith)
            requires
                rows == k + 1,
        ;
        assert(values.take((rows * side_length) as int) =~= values.take((k * side_length) as int)
            + matrix[k as int]);
    }
}

/// Laying the rows of the reshaped matrix end to end gives back the values.
pub proof fn lemma_reshape_round_trip(values: Seq<u32>, side_length: nat)
    requires
        values.len() == side_length * side_length,
    ensures
        reshaped(values, side_length).flatten() == values,
{
    lemma_rows_flatten(values, side_length, side_length);
    assert(reshaped(values, side_length).take(side_length as int) =~= reshaped(
        values,
        side_length,
    ));
}

} // verus!
