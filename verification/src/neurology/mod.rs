//! The neurons, the network that owns them, and its adjustment pass.

pub mod adjustment;
pub mod network;
pub mod neuron;
pub mod shape;
pub mod synapse;

pub use network::{NetworkView, ProtoAENetwork};
pub use neuron::{NeuronView, ProtoAENeuron};
pub use synapse::Synapse;
