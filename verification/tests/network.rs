use proto_ae::error::NetworkError;
use proto_ae::neurology::{ProtoAENetwork, ProtoAENeuron, Synapse};

fn bits(x: f32) -> u32 {
    x.to_bits()
}

fn all_bits(xs: &[f32]) -> Vec<u32> {
    xs.iter().map(|x| x.to_bits()).collect()
}

/// A network of side length 28 whose neuron `j` has the weights `weights[j]`
/// and holds the measures `measures[j]`.
fn network_of(weights: &[Vec<f32>], measures: &[Vec<f32>], rate: f32) -> ProtoAENetwork {
    let mut neurons = Vec::new();
    for (j, row) in weights.iter().enumerate() {
        neurons.push(ProtoAENeuron::with_weights(j.to_string(), 28, &all_bits(row)));
    }
    let mut network = ProtoAENetwork::from_neurons(neurons, 28, bits(rate)).ok().unwrap();
    for (j, row) in measures.iter().enumerate() {
        for (t, m) in row.iter().enumerate() {
            assert_eq!(network.load_val(j, t % 28, t / 28, bits(*m)), Ok(()));
        }
    }
    network
}

fn weights_of(network: &ProtoAENetwork) -> Vec<Vec<u32>> {
    network
        .get_neurons()
        .iter()
        .map(|n| n.get_synapses().iter().map(|s| s.weight).collect())
        .collect()
}

fn measures_of(network: &ProtoAENetwork) -> Vec<Vec<u32>> {
    network
        .get_neurons()
        .iter()
        .map(|n| n.get_synapses().iter().map(|s| s.measure).collect())
        .collect()
}

/// The pass in the machine's own single-precision arithmetic.
fn reference_pass(weights: &[Vec<f32>], measures: &[Vec<f32>], rate: f32) -> Vec<Vec<u32>> {
    let num_inputs = weights[0].len();
    let mut averages = Vec::new();
    for (ws, ms) in weights.iter().zip(measures.iter()) {
        let mut total_weighted_measure = 0.0f32;
        let mut total_weight = 0.0f32;
        for (w, m) in ws.iter().zip(ms.iter()) {
            total_weighted_measure += m * w;
            total_weight += w;
        }
        averages.push(total_weighted_measure / total_weight);
    }
    let mut zeta = Vec::new();
    for t in 0..num_inputs {
        let mut prediction = 0.0f32;
        for j in 0..weights.len() {
            prediction += averages[j] * weights[j][t];
        }
        zeta.push(prediction - measures[0][t]);
    }
    let mut adjusted = Vec::new();
    for a in 0..weights.len() {
        let mut shared = 0.0f32;
        for t in 0..num_inputs {
            shared += 2.0 * zeta[t] * weights[a][t] * (measures[0][a] - averages[a]);
        }
        let mut row = Vec::new();
        for b in 0..num_inputs {
            let adjustment = (shared + 2.0 * zeta[b] * averages[a]) * rate;
            let candidate = weights[a][b] - adjustment;
            row.push(if candidate > 0.0 { candidate.to_bits() } else { 0 });
        }
        adjusted.push(row);
    }
    adjusted
}

fn two_by_three() -> (Vec<Vec<f32>>, Vec<Vec<f32>>) {
    (
        vec![vec![0.1, 0.3, 0.6], vec![0.4, 0.2, 0.1]],
        vec![vec![0.2, 0.8, 0.5], vec![0.2, 0.8, 0.5]],
    )
}

#[test]
fn new_network_names_neurons_by_index() {
    let generator = || bits(0.25);
    let network = ProtoAENetwork::new(12, 3, 28, bits(0.001), &generator);
    let names: Vec<String> = network.get_neurons().iter().map(|n| n.get_name()).collect();
    let expected: Vec<String> = (0..12).map(|i: usize| i.to_string()).collect();
    assert_eq!(names, expected);
    assert_eq!(names[0], "0");
    assert_eq!(names[11], "11");
}

#[test]
fn new_network_has_uniform_neurons() {
    let generator = || bits(0.25);
    let network = ProtoAENetwork::new(4, 6, 28, bits(0.001), &generator);
    assert_eq!(network.get_learning_constant(), bits(0.001));
    assert_eq!(network.get_side_length(), 28);
    assert_eq!(network.get_neurons().len(), 4);
    for neuron in network.get_neurons().iter() {
        assert_eq!(neuron.get_side_length(), 28);
        assert_eq!(neuron.get_synapses().len(), 6);
        for s in neuron.get_synapses().iter() {
            assert_eq!(*s, Synapse { measure: 0, weight: bits(0.25) });
        }
    }
}

#[test]
fn new_network_draws_weights_neuron_by_neuron() {
    let calls = std::cell::Cell::new(0u32);
    let generator = || {
        calls.set(calls.get() + 1);
        calls.get()
    };
    let network = ProtoAENetwork::new(2, 3, 28, bits(0.001), &generator);
    assert_eq!(weights_of(&network), vec![vec![1, 2, 3], vec![4, 5, 6]]);
}

#[test]
fn new_network_without_neurons() {
    let generator = || bits(0.25);
    let network = ProtoAENetwork::new(0, 784, 28, bits(0.001), &generator);
    assert_eq!(network.get_neurons().len(), 0);
}

#[test]
fn from_neurons_keeps_neurons_in_order() {
    let first = ProtoAENeuron::with_weights(String::from("a"), 2, &all_bits(&[1.0, 2.0]));
    let second = ProtoAENeuron::with_weights(String::from("b"), 2, &all_bits(&[3.0, 4.0]));
    let network = ProtoAENetwork::from_neurons(vec![first, second], 2, bits(0.5)).ok().unwrap();
    assert_eq!(network.get_neurons()[0].get_name(), "a");
    assert_eq!(network.get_neurons()[1].get_name(), "b");
    assert_eq!(weights_of(&network), vec![all_bits(&[1.0, 2.0]), all_bits(&[3.0, 4.0])]);
    assert_eq!(network.get_learning_constant(), bits(0.5));
    assert_eq!(network.get_side_length(), 2);
}

#[test]
fn from_neurons_refuses_unequal_synapse_counts() {
    let first = ProtoAENeuron::with_weights(String::from("a"), 2, &all_bits(&[1.0, 2.0]));
    let second = ProtoAENeuron::with_weights(String::from("b"), 2, &all_bits(&[3.0]));
    let made = ProtoAENetwork::from_neurons(vec![first, second], 2, bits(0.5));
    assert_eq!(made.err(), Some(NetworkError::SynapseCountMismatch));
}

#[test]
fn from_neurons_refuses_foreign_side_length() {
    let first = ProtoAENeuron::with_weights(String::from("a"), 2, &all_bits(&[1.0, 2.0]));
    let second = ProtoAENeuron::with_weights(String::from("b"), 3, &all_bits(&[3.0, 4.0]));
    let made = ProtoAENetwork::from_neurons(vec![first, second], 2, bits(0.5));
    assert_eq!(made.err(), Some(NetworkError::SideLengthMismatch));
}

#[test]
fn from_neurons_reports_side_length_before_synapse_count() {
    let first = ProtoAENeuron::with_weights(String::from("a"), 2, &all_bits(&[1.0, 2.0]));
    let second = ProtoAENeuron::with_weights(String::from("b"), 2, &all_bits(&[3.0]));
    let third = ProtoAENeuron::with_weights(String::from("c"), 5, &all_bits(&[3.0, 4.0]));
    let made = ProtoAENetwork::from_neurons(vec![first, second, third], 2, bits(0.5));
    assert_eq!(made.err(), Some(NetworkError::SideLengthMismatch));
}

#[test]
fn from_neurons_accepts_no_neurons() {
    let network = ProtoAENetwork::from_neurons(Vec::new(), 28, bits(0.5)).ok().unwrap();
    assert_eq!(network.get_neurons().len(), 0);
}

#[test]
fn load_val_reaches_one_neuron_only() {
    let generator = || bits(0.25);
    let mut network = ProtoAENetwork::new(3, 4, 2, bits(0.001), &generator);
    assert_eq!(network.load_val(1, 1, 1, bits(0.75)), Ok(()));
    assert_eq!(
        measures_of(&network),
        vec![vec![0, 0, 0, 0], vec![0, 0, 0, bits(0.75)], vec![0, 0, 0, 0]]
    );
    assert_eq!(weights_of(&network), vec![vec![bits(0.25); 4]; 3]);
}

#[test]
fn load_val_refuses_missing_neuron() {
    let generator = || bits(0.25);
    let mut network = ProtoAENetwork::new(3, 4, 2, bits(0.001), &generator);
    assert_eq!(network.load_val(3, 0, 0, bits(0.75)), Err(NetworkError::NeuronOutOfRange));
    assert_eq!(measures_of(&network), vec![vec![0; 4]; 3]);
}

#[test]
fn load_val_refuses_bad_geometry() {
    let generator = || bits(0.25);
    let mut network = ProtoAENetwork::new(2, 3, 2, bits(0.001), &generator);
    assert_eq!(network.load_val(0, 2, 0, bits(0.75)), Err(NetworkError::CoordinateOutOfBounds));
    assert_eq!(network.load_val(0, 0, 2, bits(0.75)), Err(NetworkError::CoordinateOutOfBounds));
    assert_eq!(network.load_val(0, 1, 1, bits(0.75)), Err(NetworkError::IndexOutOfRange));
    assert_eq!(network.load_val(9, 2, 0, bits(0.75)), Err(NetworkError::NeuronOutOfRange));
    assert_eq!(measures_of(&network), vec![vec![0; 3]; 2]);
}

#[test]
fn one_neuron_two_synapses_exact_weights() {
    let half = || bits(0.5);
    let mut network = ProtoAENetwork::new(1, 2, 28, bits(0.1), &half);
    assert_eq!(network.load_val(0, 0, 0, bits(1.0)), Ok(()));
    assert_eq!(network.load_val(0, 1, 0, bits(0.0)), Ok(()));
    assert_eq!(network.get_neurons()[0].compute_em(), Ok(bits(0.5)));
    assert_eq!(network.perform_adjustment(), Ok(()));
    let synapses = network.get_neurons()[0].get_synapses();
    assert_eq!(f32::from_bits(synapses[0].weight), 0.6);
    assert_eq!(f32::from_bits(synapses[1].weight), 0.5);
    assert_eq!(synapses[0].measure, bits(1.0));
    assert_eq!(synapses[1].measure, bits(0.0));
}

#[test]
fn large_learning_constant_clamps_to_exactly_zero() {
    let mut network = network_of(&[vec![0.5, 0.5]], &[vec![0.0, 1.0]], 100.0);
    assert_eq!(network.perform_adjustment(), Ok(()));
    assert_eq!(weights_of(&network), vec![vec![0, bits(50.5)]]);
}

#[test]
fn clamp_gives_positive_zero_not_negative_zero() {
    let mut network = network_of(&[vec![0.5, 0.5]], &[vec![0.0, 1.0]], 1.0);
    assert_eq!(network.perform_adjustment(), Ok(()));
    assert_eq!(weights_of(&network), vec![vec![0, bits(1.0)]]);
}

#[test]
fn pass_over_two_neurons_matches_formula() {
    let (weights, measures) = two_by_three();
    let mut network = network_of(&weights, &measures, 0.01);
    assert_eq!(network.perform_adjustment(), Ok(()));
    assert_eq!(weights_of(&network), reference_pass(&weights, &measures, 0.01));
    assert_eq!(
        weights_of(&network),
        vec![
            vec![0x3DC8D1FE, 0x3E9BE0EC, 0x3F198428],
            vec![0x3ECD27E1, 0x3E525AE4, 0x3DD0ABE9],
        ]
    );
    assert_eq!(measures_of(&network), vec![all_bits(&measures[0]), all_bits(&measures[1])]);
}

#[test]
fn second_pass_starts_from_adjusted_weights() {
    let (weights, measures) = two_by_three();
    let mut network = network_of(&weights, &measures, 0.01);
    assert_eq!(network.perform_adjustment(), Ok(()));
    assert_eq!(network.perform_adjustment(), Ok(()));
    assert_eq!(
        weights_of(&network),
        vec![
            vec![0x3DC4D141, 0x3E9E2195, 0x3F196D46],
            vec![0x3ECD82D9, 0x3E57E602, 0x3DD488ED],
        ]
    );
}

#[test]
fn reference_measures_come_from_neuron_zero() {
    let weights = vec![vec![0.1, 0.3, 0.6], vec![0.4, 0.2, 0.1]];
    let measures = vec![vec![0.2, 0.8, 0.5], vec![0.9, 0.1, 0.3]];
    let mut network = network_of(&weights, &measures, 0.01);
    assert_eq!(network.perform_adjustment(), Ok(()));
    assert_eq!(weights_of(&network), reference_pass(&weights, &measures, 0.01));
    assert_eq!(
        weights_of(&network),
        vec![
            vec![0x3DC7A6E1, 0x3E9BC87A, 0x3F198484],
            vec![0x3ECC6DA7, 0x3E5350CC, 0x3DD00238],
        ]
    );
}

#[test]
fn pass_over_image_sized_network_matches_formula() {
    let weights: Vec<Vec<f32>> = (0..3)
        .map(|j| (0..784).map(|t| ((j * 131 + t * 7) % 97) as f32 / 9700.0 + 0.0001).collect())
        .collect();
    let measures: Vec<Vec<f32>> =
        (0..3).map(|_| (0..784).map(|t| ((t * 13) % 256) as f32 / 255.0).collect()).collect();
    let mut network = network_of(&weights, &measures, 0.001);
    assert_eq!(network.perform_adjustment(), Ok(()));
    assert_eq!(weights_of(&network), reference_pass(&weights, &measures, 0.001));
}

#[test]
fn passes_are_deterministic() {
    let (weights, measures) = two_by_three();
    let mut first = network_of(&weights, &measures, 0.01);
    let mut second = network_of(&weights, &measures, 0.01);
    for _ in 0..25 {
        assert_eq!(first.perform_adjustment(), second.perform_adjustment());
        assert_eq!(weights_of(&first), weights_of(&second));
    }
}

#[test]
fn zero_learning_constant_changes_nothing() {
    let (weights, measures) = two_by_three();
    let mut network = network_of(&weights, &measures, 0.0);
    assert_eq!(network.perform_adjustment(), Ok(()));
    assert_eq!(weights_of(&network), vec![all_bits(&weights[0]), all_bits(&weights[1])]);
    let mut negative_zero = network_of(&weights, &measures, -0.0);
    assert_eq!(negative_zero.perform_adjustment(), Ok(()));
    assert_eq!(weights_of(&negative_zero), vec![all_bits(&weights[0]), all_bits(&weights[1])]);
}

#[test]
fn zero_learning_constant_still_clamps_negative_weight() {
    let mut network = network_of(&[vec![-0.1, 0.3, 0.6]], &[vec![0.2, 0.8, 0.5]], 0.0);
    assert_eq!(network.perform_adjustment(), Ok(()));
    assert_eq!(weights_of(&network), vec![vec![0, bits(0.3), bits(0.6)]]);
}

#[test]
fn no_weight_is_negative_after_any_pass() {
    let weights = vec![vec![-0.1, 0.3, 0.6], vec![0.4, -0.2, 0.1]];
    let measures = vec![vec![0.2, 0.8, 0.5], vec![0.2, 0.8, 0.5]];
    let mut network = network_of(&weights, &measures, 5.0);
    for _ in 0..10 {
        if network.perform_adjustment().is_ok() {
            for row in weights_of(&network) {
                for w in row {
                    assert!(w <= 0x7F80_0000);
                    assert!(f32::from_bits(w) >= 0.0);
                }
            }
        }
    }
}

#[test]
fn pass_refuses_network_without_neurons() {
    let generator = || bits(0.25);
    let mut network = ProtoAENetwork::new(0, 4, 2, bits(0.001), &generator);
    assert_eq!(network.perform_adjustment(), Err(NetworkError::NoReferenceNeuron));
}

#[test]
fn pass_refuses_more_neurons_than_inputs() {
    let generator = || bits(0.25);
    let mut network = ProtoAENetwork::new(3, 2, 2, bits(0.001), &generator);
    assert_eq!(network.load_val(0, 0, 0, bits(0.5)), Ok(()));
    assert_eq!(network.perform_adjustment(), Err(NetworkError::ReferenceOutOfRange));
    assert_eq!(weights_of(&network), vec![vec![bits(0.25); 2]; 3]);
}

#[test]
fn pass_refuses_neurons_without_synapses() {
    let generator = || bits(0.25);
    let mut network = ProtoAENetwork::new(1, 0, 2, bits(0.001), &generator);
    assert_eq!(network.perform_adjustment(), Err(NetworkError::ReferenceOutOfRange));
}

#[test]
fn pass_refuses_undefined_activation_and_keeps_weights() {
    let weights = vec![vec![0.1, 0.3, 0.6], vec![0.0, 0.0, 0.0]];
    let measures = vec![vec![0.2, 0.8, 0.5], vec![0.2, 0.8, 0.5]];
    let mut network = network_of(&weights, &measures, 0.01);
    assert_eq!(network.perform_adjustment(), Err(NetworkError::UndefinedActivation));
    assert_eq!(weights_of(&network), vec![all_bits(&weights[0]), all_bits(&weights[1])]);
    assert_eq!(measures_of(&network), vec![all_bits(&measures[0]), all_bits(&measures[1])]);
}

#[test]
fn negative_learning_constant_clamps_the_other_way() {
    let mut network = network_of(&[vec![0.5, 0.5]], &[vec![1.0, 0.0]], -100.0);
    assert_eq!(network.perform_adjustment(), Ok(()));
    assert_eq!(weights_of(&network), vec![vec![0, bits(0.5)]]);
}

#[test]
fn pass_after_clamp_goes_on_from_zero_weight() {
    let weights = vec![vec![0.5, 0.5]];
    let measures = vec![vec![0.0, 1.0]];
    let mut network = network_of(&weights, &measures, 1.0);
    assert_eq!(network.perform_adjustment(), Ok(()));
    assert_eq!(network.perform_adjustment(), Ok(()));
    assert_eq!(weights_of(&network), reference_pass(&[vec![0.0, 1.0]], &measures, 1.0));
}

#[test]
fn serialize_shapes_every_neuron() {
    let first =
        ProtoAENeuron::with_weights(String::from("0"), 2, &all_bits(&[1.0, 2.0, 3.0, 4.0]));
    let second =
        ProtoAENeuron::with_weights(String::from("1"), 2, &all_bits(&[5.0, 6.0, 7.0, 8.0]));
    let network = ProtoAENetwork::from_neurons(vec![first, second], 2, bits(0.5)).ok().unwrap();
    assert_eq!(
        network.serialize(),
        Ok(vec![
            vec![all_bits(&[1.0, 2.0]), all_bits(&[3.0, 4.0])],
            vec![all_bits(&[5.0, 6.0]), all_bits(&[7.0, 8.0])],
        ])
    );
}

#[test]
fn serialize_refuses_neurons_that_are_not_square() {
    let generator = || bits(0.25);
    let network = ProtoAENetwork::new(2, 3, 2, bits(0.001), &generator);
    assert_eq!(network.serialize(), Err(NetworkError::SynapseCountMismatch));
}

#[test]
fn serialize_of_empty_network() {
    let generator = || bits(0.25);
    let network = ProtoAENetwork::new(0, 3, 2, bits(0.001), &generator);
    assert_eq!(network.serialize(), Ok(Vec::new()));
}

#[test]
fn serialize_after_pass_holds_adjusted_weights() {
    let half = || bits(0.5);
    let mut network = ProtoAENetwork::new(1, 4, 2, bits(0.1), &half);
    assert_eq!(network.load_val(0, 0, 0, bits(1.0)), Ok(()));
    assert_eq!(network.perform_adjustment(), Ok(()));
    let flat: Vec<u32> = network.serialize().unwrap().remove(0).into_iter().flatten().collect();
    assert_eq!(flat, weights_of(&network)[0]);
}
