//! A neuron: a name and one synapse per input position.

use crate::binary32::{
    clamped_at_zero, ieee_div, is_zero, soft_add, soft_div, soft_mul, soft_sub, zero, TWO, ZERO,
};
use crate::error::NetworkError;
use crate::neurology::adjustment::{
    adjusted_synapses, error_feedback, kept_at_zero_rate, unscaled_adjustment,
};
use crate::neurology::shape::{
    flat_index, lemma_reshape_round_trip, matrix_row, reshaped, weights_of,
};
use crate::neurology::synapse::{total_weight, total_weighted_measure, Synapse};
use vstd::prelude::*;

verus! {

pub struct ProtoAENeuron {
    name: String,
    side_length: usize,
    synapses: Vec<Synapse>,
}

/// What a neuron is, to its callers.
pub struct NeuronView {
    pub name: Seq<char>,
    pub side_length: nat,
    pub synapses: Seq<Synapse>,
}

impl View for ProtoAENeuron {
    type V = NeuronView;

    closed spec fn view(&self) -> NeuronView {
        NeuronView {
            name: self.name@,
            side_length: self.side_length as nat,
            synapses: self.synapses@,
        }
    }
}

/// The synapses that a neuron starts with: no measure loaded, the given weights.
pub open spec fn initial_synapses(weights: Seq<u32>) -> Seq<Synapse> {
    Seq::new(weights.len(), |i: int| Synapse { measure: ZERO, weight: weights[i] })
}

/// The weight-normalised average of the loaded measures.
pub open spec fn activation(synapses: Seq<Synapse>) -> u32 {
    ieee_div(total_weighted_measure(synapses), total_weight(synapses))
}

/// Whether a value can be loaded at column `x` of row `y`, and if not, why
/// not: both coordinates must lie in the image, and the position must have a
/// synapse.
pub open spec fn load_outcome(neuron: NeuronView, x: nat, y: nat) -> Result<(), NetworkError> {
    if x >= neuron.side_length || y >= neuron.side_length {
        Err(NetworkError::CoordinateOutOfBounds)
    } else if flat_index(neuron.side_length, x, y) >= neuron.synapses.len() {
        Err(NetworkError::IndexOutOfRange)
    } else {
        Ok(())
    }
}

/// The neuron with `val` as the measure at column `x` of row `y`.
pub open spec fn loaded(neuron: NeuronView, x: nat, y: nat, val: u32) -> NeuronView {
    let index = flat_index(neuron.side_length, x, y) as int;
    NeuronView {
        synapses: neuron.synapses.update(
            index,
            Synapse { measure: val, weight: neuron.synapses[index].weight },
        ),
        ..neuron
    }
}

impl ProtoAENeuron {
    /// A neuron with one synapse per weight, in the order given.
    pub fn with_weights(name: String, side_length: usize, weights: &Vec<u32>) -> (neuron: Self)
        ensures
            neuron@.name == name@,
            neuron@.side_length == side_length,
            neuron@.synapses == initial_synapses(weights@),
    {
        let mut synapses: Vec<Synapse> = Vec::new();
        let n = weights.len();
        let mut i: usize = 0;
        while i < n
            invariant
                n == weights.len(),
                i <= n,
                synapses@ == initial_synapses(weights@.take(i as int)),
            decreases n - i,
        {
            synapses.push(Synapse::new(ZERO, weights[i]));
            i += 1;
        }
        ProtoAENeuron { name, side_length, synapses }
    }

    /// A neuron with `num_synapses` synapses, each weight drawn from the generator.
    pub fn new<F: Fn() -> u32>(
        name: String,
        num_synapses: usize,
        side_length: usize,
        weight_generator: &F,
    ) -> (neuron: Self)
        requires
            call_requires(*weight_generator, ()),
        ensures
            neuron@.name == name@,
            neuron@.side_length == side_length,
            neuron@.synapses.len() == num_synapses,
            forall|i: int|
                0 <= i < num_synapses ==> (#[trigger] neuron@.synapses[i]).measure == ZERO
                    && call_ensures(*weight_generator, (), neuron@.synapses[i].weight),
    {
        let mut weights: Vec<u32> = Vec::new();
        let mut i: usize = 0;
        while i < num_synapses
            invariant
                i <= num_synapses,
                weights.len() == i,
                call_requires(*weight_generator, ()),
                forall|k: int|
                    0 <= k < i ==> call_ensures(*weight_generator, (), #[trigger] weights[k]),
            decreases num_synapses - i,
        {
            let w: u32 = weight_generator();
            weights.push(w);
            i += 1;
        }
        Self::with_weights(name, side_length, &weights)
    }

    pub fn get_name(&self) -> (name: String)
        ensures
            name@ == self@.name,
    {
        self.name.clone()
    }

    pub fn get_side_length(&self) -> (side_length: usize)
        ensures
            side_length == self@.side_length,
    {
        self.side_length
    }

    pub fn get_synapses(&self) -> (synapses: &Vec<Synapse>)
        ensures
            synapses@ == self@.synapses,
    {
        &self.synapses
    }

    /// Loads `val` as the measure of the synapse for column `x` of row `y`.
    /// A neuron that refuses the position is left as it is.
    pub fn load_val(&mut self, x: usize, y: usize, val: u32) -> (outcome: Result<
        (),
        NetworkError,
    >)
        ensures
            outcome == load_outcome(old(self)@, x as nat, y as nat),
            outcome is Ok ==> final(self)@ == loaded(old(self)@, x as nat, y as nat, val),
            outcome is Err ==> final(self)@ == old(self)@,
    {
        if x >= self.side_length || y >= self.side_length {
            return Err(NetworkError::CoordinateOutOfBounds);
        }
        let num_synapses = self.synapses.len();
        let row_start = match y.checked_mul(self.side_length) {
            Some(start) => start,
            None => {
                return Err(NetworkError::IndexOutOfRange);
            },
        };
        let val_i = match row_start.checked_add(x) {
            Some(index) => index,
            None => {
                return Err(NetworkError::IndexOutOfRange);
            },
        };
        if val_i >= num_synapses {
            return Err(NetworkError::IndexOutOfRange);
        }
        self.synapses[val_i].measure = val;
        Ok(())
    }

    /// The weights as a square matrix in row-major order, one row per row of
    /// the image. Laid end to end, the rows are the weights again.
    pub fn to_serializable(&self) -> (matrix: Result<Vec<Vec<u32>>, NetworkError>)
        ensures
            match matrix {
                Ok(rows) => self@.synapses.len() == self@.side_length * self@.side_length
                    && rows.deep_view() == reshaped(
                    weights_of(self@.synapses),
                    self@.side_length,
                ) && rows.deep_view().flatten() == weights_of(self@.synapses),
                Err(e) => self@.synapses.len() != self@.side_length * self@.side_length && e
                    == NetworkError::SynapseCountMismatch,
            },
    {
        let side = self.side_length;
        let num_synapses = self.synapses.len();
        let area = match side.checked_mul(side) {
            Some(area) => area,
            None => {
                return Err(NetworkError::SynapseCountMismatch);
            },
        };
        if num_synapses != area {
            return Err(NetworkError::SynapseCountMismatch);
        }
        let ghost values = weights_of(self@.synapses);
        let mut val_matrix: Vec<Vec<u32>> = Vec::new();
        let mut j: usize = 0;
        while j < side
            invariant
                side == self.side_length,
                self.synapses.len() == side * side,
                values == weights_of(self@.synapses),
                j <= side,
                val_matrix@.len() == j,
                forall|k: int|
                    0 <= k < j ==> (#[trigger] val_matrix@[k])@ == matrix_row(
                        values,
                        side as nat,
                        k,
                    ),
            decreases side - j,
        {
            let mut val_row: Vec<u32> = Vec::new();
            let mut i: usize = 0;
            assert(j * side + side <= side * side) by (nonlinear_arith)
                requires
                    j < side,
            ;
            while i < side
                invariant
                    side == self.side_length,
                    self.synapses.len() == side * side,
                    values == weights_of(self@.synapses),
                    j < side,
                    j * side + side <= side * side,
                    i <= side,
                    val_row@.len() == i,
                    forall|k: int|
                        0 <= k < i ==> #[trigger] val_row@[k] == values[j * side + k],
                decreases side - i,
            {
                val_row.push(self.synapses[j * side + i].weight);
                i += 1;
            }
            val_matrix.push(val_row);
            j += 1;
        }
        proof {
            assert(val_matrix.deep_view() =~~= reshaped(values, side as nat));
            lemma_reshape_round_trip(values, side as nat);
        }
        Ok(val_matrix)
    }

    /// The summed products of measure and weight, and the summed weights.
    pub fn totals(&self) -> (sums: (u32, u32))
        ensures
            sums.0 == total_weighted_measure(self@.synapses),
            sums.1 == total_weight(self@.synapses),
    {
        let mut total_weighted_measure: u32 = ZERO;
        let mut total_weights: u32 = ZERO;
        let n = self.synapses.len();
        let mut i: usize = 0;
        while i < n
            invariant
                n == self.synapses.len(),
                i <= n,
                total_weighted_measure == self::total_weighted_measure(
                    self.synapses@.take(i as int),
                ),
                total_weights == total_weight(self.synapses@.take(i as int)),
            decreases n - i,
        {
            let (weighted_measure, weight) = self.synapses[i].get_weighted_measure();
            assert(self.synapses@.take(i + 1).drop_last() == self.synapses@.take(i as int));
            total_weighted_measure = soft_add(total_weighted_measure, weighted_measure);
            total_weights = soft_add(total_weights, weight);
            i += 1;
        }
        assert(self.synapses@.take(n as int) == self.synapses@);
        (total_weighted_measure, total_weights)
    }

    /// The activation of the neuron: the weight-normalised average of the
    /// measures that are loaded. It is undefined where the weights sum to zero.
    pub fn compute_em(&self) -> (em: Result<u32, NetworkError>)
        ensures
            match em {
                Ok(value) => !is_zero(total_weight(self@.synapses)) && value == activation(
                    self@.synapses,
                ),
                Err(e) => is_zero(total_weight(self@.synapses)) && e
                    == NetworkError::UndefinedActivation,
            },
    {
        let (total_weighted_measure, total_weights) = self.totals();
        if zero(total_weights) {
            Err(NetworkError::UndefinedActivation)
        } else {
            Ok(soft_div(total_weighted_measure, total_weights))
        }
    }

    /// The term that the adjustments of all the synapses of this neuron share.
    pub(crate) fn error_feedback(&self, errors: &Vec<u32>, deviation: u32) -> (shared: u32)
        requires
            errors.len() == self@.synapses.len(),
        ensures
            shared == error_feedback(
                self@.synapses,
                errors@,
                deviation,
                self@.synapses.len(),
            ),
    {
        let mut shared: u32 = ZERO;
        let n = self.synapses.len();
        let mut t: usize = 0;
        while t < n
            invariant
                n == self.synapses.len(),
                n == errors.len(),
                t <= n,
                shared == self::error_feedback(self.synapses@, errors@, deviation, t as nat),
            decreases n - t,
        {
            let term = soft_mul(
                soft_mul(soft_mul(TWO, errors[t]), self.synapses[t].weight),
                deviation,
            );
            shared = soft_add(shared, term);
            t += 1;
        }
        shared
    }

    /// Adjusts every weight of this neuron, and clamps it at zero.
    pub(crate) fn apply_adjustment(
        &mut self,
        errors: &Vec<u32>,
        shared: u32,
        activation: u32,
        rate: u32,
    )
        requires
            errors.len() == old(self)@.synapses.len(),
        ensures
            final(self)@.name == old(self)@.name,
            final(self)@.side_length == old(self)@.side_length,
            final(self)@.synapses == adjusted_synapses(
                old(self)@.synapses,
                errors@,
                shared,
                activation,
                rate,
            ),
            is_zero(rate) ==> forall|k: int|
                0 <= k < old(self)@.synapses.len() && kept_at_zero_rate(
                    old(self)@.synapses[k].weight,
                    unscaled_adjustment(shared, errors@[k], activation),
                ) ==> #[trigger] final(self)@.synapses[k] == old(self)@.synapses[k],
    {
        let n = self.synapses.len();
        let mut b: usize = 0;
        while b < n
            invariant
                n == self.synapses.len(),
                n == errors.len(),
                b <= n,
                self.name == old(self).name,
                self.side_length == old(self).side_length,
                self.synapses@.len() == old(self).synapses@.len(),
                forall|k: int|
                    0 <= k < b ==> #[trigger] self.synapses@[k] == adjusted_synapses(
                        old(self).synapses@,
                        errors@,
                        shared,
                        activation,
                        rate,
                    )[k],
                forall|k: int| b <= k < n ==> #[trigger] self.synapses@[k] == old(self).synapses@[k],
                is_zero(rate) ==> forall|k: int|
                    0 <= k < b && kept_at_zero_rate(
                        old(self).synapses@[k].weight,
                        unscaled_adjustment(shared, errors@[k], activation),
                    ) ==> #[trigger] self.synapses@[k] == old(self).synapses@[k],
            decreases n - b,
        {
            let base = soft_add(shared, soft_mul(soft_mul(TWO, errors[b]), activation));
            let adjustment = soft_mul(base, rate);
            let candidate = soft_sub(self.synapses[b].weight, adjustment);
            self.synapses[b].weight = clamped_at_zero(candidate);
            b += 1;
        }
    }
}

} // verus!
