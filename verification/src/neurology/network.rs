//! The network: neurons that share one learning constant, and the pass that
//! adjusts all their weights.

use crate::binary32::{is_zero, soft_add, soft_mul, soft_sub, ZERO};
use crate::decimal::{decimal_digits, decimal_string};
use crate::error::NetworkError;
use crate::neurology::adjustment::{
    adjusted, adjustment_base, adjustment_outcome, after_pass, degenerate, kept_at_zero_rate,
    prediction, reconstruction_error, reconstruction_errors, rectangular, weights_nonnegative,
};
use crate::neurology::neuron::{activation, load_outcome, loaded, NeuronView, ProtoAENeuron};
use crate::neurology::shape::{reshaped, weights_of};
use crate::neurology::synapse::{total_weight, Synapse};
use vstd::prelude::*;

verus! {

pub struct ProtoAENetwork {
    neurons: Vec<ProtoAENeuron>,
    learning_constant: u32,
    side_length: usize,
}

/// What a network is, to its callers: per neuron a name and a row of
/// synapses, and the two settings that all neurons share.
pub struct NetworkView {
    pub names: Seq<Seq<char>>,
    pub synapses: Seq<Seq<Synapse>>,
    pub side_length: nat,
    pub learning_constant: u32,
}

impl View for ProtoAENetwork {
    type V = NetworkView;

    closed spec fn view(&self) -> NetworkView {
        NetworkView {
            names: names_of(self.neurons@),
            synapses: rows_of(self.neurons@),
            side_length: self.side_length as nat,
            learning_constant: self.learning_constant,
        }
    }
}

/// The name of every neuron.
pub open spec fn names_of(neurons: Seq<ProtoAENeuron>) -> Seq<Seq<char>> {
    Seq::new(neurons.len(), |j: int| neurons[j]@.name)
}

/// The synapses of every neuron.
pub open spec fn rows_of(neurons: Seq<ProtoAENeuron>) -> Seq<Seq<Synapse>> {
    Seq::new(neurons.len(), |j: int| neurons[j]@.synapses)
}

/// The activation of every neuron.
pub open spec fn activations(net: Seq<Seq<Synapse>>) -> Seq<u32> {
    Seq::new(net.len(), |j: int| activation(net[j]))
}

impl ProtoAENetwork {
    /// Every neuron has the side length of the network and as many synapses
    /// as the first neuron.
    #[verifier::type_invariant]
    spec fn well_formed(&self) -> bool {
        forall|j: int|
            0 <= j < self.neurons@.len() ==> (#[trigger] self.neurons@[j])@.side_length
                == self.side_length && self.neurons@[j]@.synapses.len()
                == self.neurons@[0]@.synapses.len()
    }

    /// A network of `num_neurons` neurons named by their index in decimal,
    /// each with `num_synapses` synapses whose weights are drawn from the
    /// generator, neuron by neuron.
    pub fn new<F: Fn() -> u32>(
        num_neurons: usize,
        num_synapses: usize,
        side_length: usize,
        learning_constant: u32,
        weight_generator: &F,
    ) -> (network: Self)
        requires
            call_requires(*weight_generator, ()),
        ensures
            network@.side_length == side_length,
            network@.learning_constant == learning_constant,
            network@.names.len() == num_neurons,
            network@.synapses.len() == num_neurons,
            forall|j: int| 0 <= j < num_neurons ==> #[trigger] network@.names[j] == decimal_digits(j as nat),
            forall|j: int|
                0 <= j < num_neurons ==> (#[trigger] network@.synapses[j]).len() == num_synapses,
            forall|j: int, i: int|
                0 <= j < num_neurons && 0 <= i < num_synapses ==> (
                #[trigger] network@.synapses[j][i]).measure == ZERO && call_ensures(
                    *weight_generator,
                    (),
                    network@.synapses[j][i].weight,
                ),
    {
        let mut neurons: Vec<ProtoAENeuron> = Vec::new();
        let mut j: usize = 0;
        while j < num_neurons
            invariant
                j <= num_neurons,
                neurons@.len() == j,
                call_requires(*weight_generator, ()),
                forall|k: int|
                    0 <= k < j ==> (#[trigger] neurons@[k])@.name == decimal_digits(k as nat)
                        && neurons@[k]@.side_length == side_length
                        && neurons@[k]@.synapses.len() == num_synapses,
                forall|k: int, i: int|
                    0 <= k < j && 0 <= i < num_synapses ==> (
                    #[trigger] neurons@[k]@.synapses[i]).measure == ZERO && call_ensures(
                        *weight_generator,
                        (),
                        neurons@[k]@.synapses[i].weight,
                    ),
            decreases num_neurons - j,
        {
            let neuron = ProtoAENeuron::new(
                decimal_string(j),
                num_synapses,
                side_length,
                weight_generator,
            );
            neurons.push(neuron);
            j += 1;
        }
        ProtoAENetwork { neurons, learning_constant, side_length }
    }

    /// A network of the given neurons, in the order given. They must all
    /// have been made for this side length, and with one number of synapses.
    pub fn from_neurons(
        neurons: Vec<ProtoAENeuron>,
        side_length: usize,
        learning_constant: u32,
    ) -> (made: Result<Self, NetworkError>)
        ensures
            match made {
                Ok(network) => assembly_error(neurons@, side_length as nat) is None
                    && network@ == (NetworkView {
                    names: names_of(neurons@),
                    synapses: rows_of(neurons@),
                    side_length: side_length as nat,
                    learning_constant,
                }),
                Err(e) => assembly_error(neurons@, side_length as nat) == Some(e),
            },
    {
        let n = neurons.len();
        let mut j: usize = 0;
        while j < n
            invariant
                n == neurons@.len(),
                j <= n,
                forall|k: int| 0 <= k < j ==> (#[trigger] neurons@[k])@.side_length == side_length,
            decreases n - j,
        {
            if neurons[j].get_side_length() != side_length {
                return Err(NetworkError::SideLengthMismatch);
            }
            j += 1;
        }
        let mut j: usize = 0;
        while j < n
            invariant
                n == neurons@.len(),
                j <= n,
                forall|k: int| 0 <= k < n ==> (#[trigger] neurons@[k])@.side_length == side_length,
                forall|k: int|
                    0 <= k < j ==> (#[trigger] neurons@[k])@.synapses.len()
                        == neurons@[0]@.synapses.len(),
            decreases n - j,
        {
            if neurons[j].get_synapses().len() != neurons[0].get_synapses().len() {
                return Err(NetworkError::SynapseCountMismatch);
            }
            j += 1;
        }
        Ok(ProtoAENetwork { neurons, learning_constant, side_length })
    }

    pub fn get_learning_constant(&self) -> (rate: u32)
        ensures
            rate == self@.learning_constant,
    {
        self.learning_constant
    }

    pub fn get_side_length(&self) -> (side_length: usize)
        ensures
            side_length == self@.side_length,
    {
        self.side_length
    }

    /// Loads `val` into neuron `neuron`, as the measure of its synapse for
    /// column `x` of row `y`. A network that refuses is left as it is.
    pub fn load_val(&mut self, neuron: usize, x: usize, y: usize, val: u32) -> (outcome: Result<
        (),
        NetworkError,
    >)
        ensures
            outcome == network_load_outcome(old(self)@, neuron as nat, x as nat, y as nat),
            outcome is Ok ==> final(self)@ == network_loaded(
                old(self)@,
                neuron as int,
                x as nat,
                y as nat,
                val,
            ),
            outcome is Err ==> final(self)@ == old(self)@,
    {
        proof {
            use_type_invariant(&*self);
        }
        if neuron >= self.neurons.len() {
            return Err(NetworkError::NeuronOutOfRange);
        }
        let mut neurons: Vec<ProtoAENeuron> = Vec::new();
        std::mem::swap(&mut self.neurons, &mut neurons);
        let outcome = neurons[neuron].load_val(x, y, val);
        std::mem::swap(&mut self.neurons, &mut neurons);
        proof {
            assert(self@.names =~= old(self)@.names);
            if outcome is Ok {
                assert(self@.synapses =~= network_loaded(
                    old(self)@,
                    neuron as int,
                    x as nat,
                    y as nat,
                    val,
                ).synapses);
            } else {
                assert(self@.synapses =~= old(self)@.synapses);
            }
        }
        outcome
    }

    /// The weights of every neuron as a square matrix, in the order of the
    /// neurons.
    pub fn serialize(&self) -> (matrices: Result<Vec<Vec<Vec<u32>>>, NetworkError>)
        ensures
            match matrices {
                Ok(shaped) => square(self@) && shaped.deep_view() == Seq::new(
                    self@.synapses.len(),
                    |j: int| reshaped(weights_of(self@.synapses[j]), self@.side_length),
                ),
                Err(e) => !square(self@) && e == NetworkError::SynapseCountMismatch,
            },
    {
        proof {
            use_type_invariant(self);
        }
        let mut collected: Vec<Vec<Vec<u32>>> = Vec::new();
        let n = self.neurons.len();
        let mut j: usize = 0;
        while j < n
            invariant
                n == self.neurons@.len(),
                self.well_formed(),
                j <= n,
                collected@.len() == j,
                forall|k: int|
                    0 <= k < j ==> self@.synapses[k].len() == self@.side_length
                        * self@.side_length,
                forall|k: int|
                    0 <= k < j ==> (#[trigger] collected@[k]).deep_view() == reshaped(
                        weights_of(self@.synapses[k]),
                        self@.side_length,
                    ),
            decreases n - j,
        {
            match self.neurons[j].to_serializable() {
                Ok(matrix) => {
                    collected.push(matrix);
                },
                Err(e) => {
                    assert(self@.synapses[j as int].len() != self@.side_length
                        * self@.side_length);
                    return Err(e);
                },
            }
            j += 1;
        }
        assert(collected.deep_view() =~= Seq::new(
            self@.synapses.len(),
            |j: int| reshaped(weights_of(self@.synapses[j]), self@.side_length),
        ));
        Ok(collected)
    }

    pub fn get_neurons(&self) -> (neurons: &Vec<ProtoAENeuron>)
        ensures
            neurons@.len() == self@.synapses.len(),
            neurons@.len() == self@.names.len(),
            rectangular(self@.synapses),
            forall|j: int|
                0 <= j < neurons@.len() ==> (#[trigger] neurons@[j])@ == (NeuronView {
                    name: self@.names[j],
                    side_length: self@.side_length,
                    synapses: self@.synapses[j],
                }),
    {
        proof {
            use_type_invariant(self);
        }
        &self.neurons
    }

    /// The activation of every neuron, unless one of them is undefined.
    fn cached_activations(&self) -> (cached: Result<Vec<u32>, NetworkError>)
        ensures
            match cached {
                Ok(values) => !degenerate(self@.synapses) && values@ == activations(
                    self@.synapses,
                ),
                Err(e) => degenerate(self@.synapses) && e == NetworkError::UndefinedActivation,
            },
    {
        let mut values: Vec<u32> = Vec::new();
        let n = self.neurons.len();
        let mut j: usize = 0;
        while j < n
            invariant
                n == self.neurons.len(),
                j <= n,
                values@.len() == j,
                forall|k: int|
                    0 <= k < j ==> !is_zero(total_weight(#[trigger] self@.synapses[k])),
                forall|k: int| 0 <= k < j ==> #[trigger] values@[k] == activation(self@.synapses[k]),
            decreases n - j,
        {
            match self.neurons[j].compute_em() {
                Ok(value) => {
                    values.push(value);
                },
                Err(e) => {
                    assert(is_zero(total_weight(self@.synapses[j as int])));
                    return Err(e);
                },
            }
            j += 1;
        }
        Ok(values)
    }

    /// What all the neurons together predict for input position `t`.
    fn prediction_at(&self, cached: &Vec<u32>, t: usize) -> (predicted: u32)
        requires
            cached@ == activations(self@.synapses),
            0 < self@.synapses.len(),
            t < self@.synapses[0].len(),
        ensures
            predicted == prediction(self@.synapses, t as int, self@.synapses.len()),
    {
        proof {
            use_type_invariant(self);
        }
        let mut predicted: u32 = ZERO;
        let n = self.neurons.len();
        let mut j: usize = 0;
        while j < n
            invariant
                n == self.neurons.len(),
                n == self@.synapses.len(),
                j <= n,
                cached@ == activations(self@.synapses),
                rectangular(self@.synapses),
                t < self@.synapses[0].len(),
                predicted == prediction(self@.synapses, t as int, j as nat),
            decreases n - j,
        {
            assert(self@.synapses[j as int].len() == self@.synapses[0].len());
            let weight = self.neurons[j].get_synapses()[t].weight;
            predicted = soft_add(predicted, soft_mul(cached[j], weight));
            j += 1;
        }
        predicted
    }

    /// The reconstruction error at every input position.
    fn cached_errors(&self, cached: &Vec<u32>) -> (errors: Vec<u32>)
        requires
            cached@ == activations(self@.synapses),
            0 < self@.synapses.len(),
        ensures
            errors@ == reconstruction_errors(self@.synapses),
    {
        let mut errors: Vec<u32> = Vec::new();
        let num_inputs = self.neurons[0].get_synapses().len();
        let mut t: usize = 0;
        while t < num_inputs
            invariant
                num_inputs == self@.synapses[0].len(),
                0 < self@.synapses.len(),
                cached@ == activations(self@.synapses),
                t <= num_inputs,
                errors@.len() == t,
                forall|k: int|
                    0 <= k < t ==> #[trigger] errors@[k] == reconstruction_error(
                        self@.synapses,
                        k,
                    ),
            decreases num_inputs - t,
        {
            let predicted = self.prediction_at(cached, t);
            let target = self.neurons[0].get_synapses()[t].measure;
            errors.push(soft_sub(predicted, target));
            t += 1;
        }
        errors
    }

    /// One adjustment pass over the measures that are loaded.
    ///
    /// Every weight is recomputed from the network as it stands before the
    /// pass, with neuron 0 as the reference neuron, and clamped at zero. A
    /// network that cannot be adjusted is left as it is.
    ///
    /// A pass that goes through leaves no negative weight. With a learning
    /// constant of zero it changes no weight that was not negative, as long as
    /// the adjustment that the constant would scale is finite.
    pub fn perform_adjustment(&mut self) -> (outcome: Result<(), NetworkError>)
        ensures
            final(self)@.names == old(self)@.names,
            final(self)@.side_length == old(self)@.side_length,
            final(self)@.learning_constant == old(self)@.learning_constant,
            outcome == adjustment_outcome(old(self)@.synapses),
            outcome is Ok ==> final(self)@.synapses == adjusted(
                old(self)@.synapses,
                old(self)@.learning_constant,
            ),
            outcome is Err ==> final(self)@.synapses == old(self)@.synapses,
            final(self)@.synapses == after_pass(
                old(self)@.synapses,
                old(self)@.learning_constant,
            ),
            outcome is Ok || weights_nonnegative(old(self)@.synapses) ==> weights_nonnegative(
                final(self)@.synapses,
            ),
            is_zero(old(self)@.learning_constant) ==> forall|a: int, b: int|
                0 <= a < old(self)@.synapses.len() && 0 <= b < old(self)@.synapses[a].len()
                    && kept_at_zero_rate(
                    old(self)@.synapses[a][b].weight,
                    adjustment_base(old(self)@.synapses, a, b),
                ) ==> #[trigger] final(self)@.synapses[a][b] == old(self)@.synapses[a][b],
    {
        proof {
            use_type_invariant(&*self);
        }
        let num_neurons = self.neurons.len();
        if num_neurons == 0 {
            return Err(NetworkError::NoReferenceNeuron);
        }
        let num_inputs = self.neurons[0].get_synapses().len();
        if num_neurons > num_inputs {
            return Err(NetworkError::ReferenceOutOfRange);
        }
        let cached = match self.cached_activations() {
            Ok(values) => values,
            Err(e) => {
                return Err(e);
            },
        };
        let errors = self.cached_errors(&cached);
        // The neurons leave the network while their weights change, and
        // return when all of them are adjusted.
        let mut neurons: Vec<ProtoAENeuron> = Vec::new();
        std::mem::swap(&mut self.neurons, &mut neurons);
        adjust_rows(&mut neurons, &cached, &errors, self.learning_constant);
        std::mem::swap(&mut self.neurons, &mut neurons);
        Ok(())
    }
}

/// Adjusts the weights of every neuron in turn, from the activations and the
/// errors that were computed before the first weight is written.
fn adjust_rows(
    neurons: &mut Vec<ProtoAENeuron>,
    cached: &Vec<u32>,
    errors: &Vec<u32>,
    rate: u32,
)
    requires
        0 < old(neurons)@.len() <= rows_of(old(neurons)@)[0].len(),
        rectangular(rows_of(old(neurons)@)),
        cached@ == activations(rows_of(old(neurons)@)),
        errors@ == reconstruction_errors(rows_of(old(neurons)@)),
    ensures
        final(neurons)@.len() == old(neurons)@.len(),
        forall|j: int|
            0 <= j < old(neurons)@.len() ==> (#[trigger] final(neurons)@[j])@ == (NeuronView {
                name: old(neurons)@[j]@.name,
                side_length: old(neurons)@[j]@.side_length,
                synapses: adjusted(rows_of(old(neurons)@), rate)[j],
            }),
        is_zero(rate) ==> forall|j: int, b: int|
            0 <= j < old(neurons)@.len() && 0 <= b < old(neurons)@[j]@.synapses.len()
                && kept_at_zero_rate(
                old(neurons)@[j]@.synapses[b].weight,
                adjustment_base(rows_of(old(neurons)@), j, b),
            ) ==> #[trigger] final(neurons)@[j]@.synapses[b] == old(neurons)@[j]@.synapses[b],
{
    let ghost before = rows_of(neurons@);
    let num_neurons = neurons.len();
    let mut a: usize = 0;
    while a < num_neurons
        invariant
            num_neurons == neurons@.len(),
            num_neurons == old(neurons)@.len(),
            before == rows_of(old(neurons)@),
            0 < num_neurons <= before[0].len(),
            rectangular(before),
            a <= num_neurons,
            cached@ == activations(before),
            errors@ == reconstruction_errors(before),
            forall|j: int|
                0 <= j < num_neurons ==> (#[trigger] neurons@[j])@.name == old(neurons)@[j]@.name
                    && neurons@[j]@.side_length == old(neurons)@[j]@.side_length,
            forall|j: int|
                0 <= j < a ==> (#[trigger] neurons@[j])@.synapses == adjusted(before, rate)[j],
            forall|j: int| a <= j < num_neurons ==> (#[trigger] neurons@[j])@.synapses == before[j],
            is_zero(rate) ==> forall|j: int, b: int|
                0 <= j < a && 0 <= b < before[j].len() && kept_at_zero_rate(
                    before[j][b].weight,
                    adjustment_base(before, j, b),
                ) ==> #[trigger] neurons@[j]@.synapses[b] == before[j][b],
        decreases num_neurons - a,
    {
        let target = neurons[0].get_synapses()[a].measure;
        let deviation = soft_sub(target, cached[a]);
        let shared = neurons[a].error_feedback(errors, deviation);
        neurons[a].apply_adjustment(errors, shared, cached[a], rate);
        a += 1;
    }
}

/// Why the neurons cannot form one network, if they cannot: one of them was
/// made for another side length, or they differ in their number of synapses.
pub open spec fn assembly_error(neurons: Seq<ProtoAENeuron>, side_length: nat) -> Option<
    NetworkError,
> {
    if exists|j: int| 0 <= j < neurons.len() && (#[trigger] neurons[j])@.side_length != side_length {
        Some(NetworkError::SideLengthMismatch)
    } else if exists|j: int|
        0 <= j < neurons.len() && (#[trigger] neurons[j])@.synapses.len()
            != neurons[0]@.synapses.len() {
        Some(NetworkError::SynapseCountMismatch)
    } else {
        None
    }
}

/// Every neuron has one synapse per pixel of the square image.
pub open spec fn square(network: NetworkView) -> bool {
    forall|j: int|
        0 <= j < network.synapses.len() ==> (#[trigger] network.synapses[j]).len()
            == network.side_length * network.side_length
}

/// Whether a value can be loaded into neuron `neuron` at column `x` of row
/// `y`, and if not, why not.
pub open spec fn network_load_outcome(network: NetworkView, neuron: nat, x: nat, y: nat) -> Result<
    (),
    NetworkError,
> {
    if neuron >= network.synapses.len() {
        Err(NetworkError::NeuronOutOfRange)
    } else {
        load_outcome(
            NeuronView {
                name: network.names[neuron as int],
                side_length: network.side_length,
                synapses: network.synapses[neuron as int],
            },
            x,
            y,
        )
    }
}

/// The network with `val` as the measure that neuron `neuron` holds at column
/// `x` of row `y`.
pub open spec fn network_loaded(
    network: NetworkView,
    neuron: int,
    x: nat,
    y: nat,
    val: u32,
) -> NetworkView {
    NetworkView {
        synapses: network.synapses.update(
            neuron,
            loaded(
                NeuronView {
                    name: network.names[neuron],
                    side_length: network.side_length,
                    synapses: network.synapses[neuron],
                },
                x,
                y,
                val,
            ).synapses,
        ),
        ..network
    }
}

} // verus!
