//! The ways in which an operation of this library can be refused.

use vstd::prelude::*;

verus! {

#[derive(Clone, Copy, Debug, PartialEq, Eq, Structural)]
pub enum NetworkError {
    /// A pixel coordinate lies outside the image.
    CoordinateOutOfBounds,
    /// The flattened pixel position has no synapse.
    IndexOutOfRange,
    /// The number of synapses is not the area of the image, or differs
    /// between the neurons of one network.
    SynapseCountMismatch,
    /// A neuron was made for another image side length than its network.
    SideLengthMismatch,
    /// The network has no neuron at the given index.
    NeuronOutOfRange,
    /// The network has no neuron, hence no reference neuron.
    NoReferenceNeuron,
    /// The network has more neurons than inputs, so that the reference neuron
    /// holds no value at the position of some neuron's index.
    ReferenceOutOfRange,
    /// The weights of a neuron sum to zero, which leaves its activation undefined.
    UndefinedActivation,
}

} // verus!
