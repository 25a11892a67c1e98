//! The parameter bundle under which fingerprints are made and matched.

use vstd::prelude::*;

verus! {

#[verifier::external_type_specification]
#[verifier::external_body]
pub struct ExConfiguration(rusty_chromaprint::Configuration);

/// The identifier that the algorithm gives a configuration. Its presets are
/// numbered from 0, and no two of them share a number.
pub uninterp spec fn configuration_id(parameters: rusty_chromaprint::Configuration) -> u8;

/// Frame size, overlap and classifier set of the fingerprint algorithm. Two
/// fingerprints can be compared only if both were made under the same
/// preset. A preset never changes once made.
pub struct Preset {
    parameters: rusty_chromaprint::Configuration,
}

impl Preset {
    /// Every preset is the algorithm's first: no other is made here.
    #[verifier::type_invariant]
    pub open spec fn is_first(self) -> bool {
        self.id() == 0
    }

    /// The parameters that the preset holds, in the algorithm's own form.
    pub closed spec fn configuration(self) -> rusty_chromaprint::Configuration {
        self.parameters
    }

    /// The algorithm's identifier of the preset.
    pub open spec fn id(self) -> u8 {
        configuration_id(self.configuration())
    }

    /// The first of the algorithm's presets: the one with the identifier 0.
    pub fn test1() -> (preset: Preset)
        ensures
            preset.id() == 0,
    {
        Preset { parameters: chromaprint_preset_test1() }
    }

    /// The algorithm's identifier of the preset, by which fingerprints made
    /// under different presets can be told apart where it is kept with them.
    pub fn algorithm(&self) -> (id: u8)
        ensures
            id == self.id(),
    {
        chromaprint_id(&self.parameters)
    }

    /// The algorithm's own form of this preset.
    pub(crate) fn parameters(&self) -> (parameters: &rusty_chromaprint::Configuration)
        ensures
            *parameters == self.configuration(),
    {
        &self.parameters
    }
}

/// Calls `rusty_chromaprint::Configuration::preset_test1`.
///
/// Taken on trust: the configuration that it makes has the identifier 0.
#[verifier::external_body]
fn chromaprint_preset_test1() -> (parameters: rusty_chromaprint::Configuration)
    ensures
        configuration_id(parameters) == 0,
{
    rusty_chromaprint::Configuration::preset_test1()
}

/// Calls `rusty_chromaprint::Configuration::id`, which hands out the
/// identifier that the configuration was made with.
#[verifier::external_body]
fn chromaprint_id(parameters: &rusty_chromaprint::Configuration) -> (id: u8)
    ensures
        id == configuration_id(*parameters),
{
    parameters.id()
}

} // verus!
