//! Declarations that make the engine's hash map known to the verifier.
//!
//! The map itself is opaque here. Each module that stores one names its
//! contents with a specification function and states, on small wrappers
//! around the map's methods, how every call changes those contents. Those
//! statements are taken from the map's documentation and are not proved.

use vstd::prelude::*;

verus! {

/// The largest capacity the wrappers around `HashMap::with_capacity`
/// admit, whatever the table is keyed by. It lies far below the size at
/// which the map reports a capacity overflow.
pub const MAX_TABLE_CAPACITY: usize = 65536;

/// `bevy::platform::collections::HashMap`, carried as an opaque value.
#[verifier::external_type_specification]
#[verifier::external_body]
#[verifier::reject_recursive_types(K)]
#[verifier::reject_recursive_types(V)]
#[verifier::reject_recursive_types(S)]
pub struct ExHashMap<K, V, S>(bevy::platform::collections::HashMap<K, V, S>);

/// `bevy::platform::hash::FixedHasher`, the map's default hash builder,
/// carried as an opaque value.
#[verifier::external_type_specification]
#[verifier::external_body]
pub struct ExFixedHasher(bevy::platform::hash::FixedHasher);

/// `bevy::math::IVec3`, the engine's integer vector and the key of the
/// spatial index, carried as an opaque value.
#[verifier::external_type_specification]
#[verifier::external_body]
pub struct ExIVec3(bevy::math::IVec3);

} // verus!
