//! Extension and layer names, and the checks that a set of names is available.
use vstd::prelude::*;

verus! {

/// An extension as the driver reports it: its name and its version.
#[derive(Clone, Debug)]
pub struct ExtensionProperties {
    pub extension_name: String,
    pub spec_version: u32,
}

/// A layer as the driver reports it.
#[derive(Clone, Debug)]
pub struct LayerProperties {
    pub layer_name: String,
    pub spec_version: u32,
    pub implementation_version: u32,
}

impl ExtensionProperties {
    pub fn new(extension_name: String, spec_version: u32) -> (r: ExtensionProperties)
        ensures
            r.extension_name@ == extension_name@,
            r.spec_version == spec_version,
    {
        ExtensionProperties { extension_name, spec_version }
    }

    pub fn extension_name(&self) -> (r: &String)
        ensures
            r@ == self.extension_name@,
    {
        &self.extension_name
    }

    pub fn spec_version(&self) -> (r: u32)
        ensures
            r == self.spec_version,
    {
        self.spec_version
    }
}

impl LayerProperties {
    pub fn new(layer_name: String, spec_version: u32, implementation_version: u32) -> (r:
        LayerProperties)
        ensures
            r.layer_name@ == layer_name@,
            r.spec_version == spec_version,
            r.implementation_version == implementation_version,
    {
        LayerProperties { layer_name, spec_version, implementation_version }
    }

    pub fn layer_name(&self) -> (r: &String)
        ensures
            r@ == self.layer_name@,
    {
        &self.layer_name
    }
}

/// The names of a list of strings, as character sequences.
pub open spec fn name_seq(names: Seq<String>) -> Seq<Seq<char>> {
    names.map_values(|s: String| s@)
}

/// The extension names of a list of extension records.
pub open spec fn extension_name_seq(exts: Seq<ExtensionProperties>) -> Seq<Seq<char>> {
    exts.map_values(|e: ExtensionProperties| e.extension_name@)
}

/// The layer names of a list of layer records.
pub open spec fn layer_name_seq(layers: Seq<LayerProperties>) -> Seq<Seq<char>> {
    layers.map_values(|l: LayerProperties| l.layer_name@)
}

/// Every name of `requested` occurs in `available`.
pub open spec fn all_present(requested: Seq<Seq<char>>, available: Seq<Seq<char>>) -> bool {
    forall|j: int| 0 <= j < requested.len() ==> available.contains(#[trigger] requested[j])
}

/// One requested name that is not available makes the whole request fail; a
/// request all of whose names are available succeeds.
pub proof fn lemma_support_is_all_names(requested: Seq<Seq<char>>, available: Seq<Seq<char>>)
    ensures
        (exists|j: int| 0 <= j < requested.len() && !available.contains(#[trigger] requested[j]))
            ==> !all_present(requested, available),
        (forall|j: int| 0 <= j < requested.len() ==> available.contains(#[trigger] requested[j]))
            ==> all_present(requested, available),
{
}

/// Whether `name` is the name of one of `available`, by exact match.
pub fn has_extension(available: &[ExtensionProperties], name: &String) -> (r: bool)
    ensures
        r == extension_name_seq(available@).contains(name@),
{
    let mut i: usize = 0;
    while i < available.len()
        invariant
            0 <= i <= available@.len(),
            forall|k: int| 0 <= k < i ==> available@[k].extension_name@ != name@,
        decreases available@.len() - i,
    {
        if available[i].extension_name == *name {
            assert(extension_name_seq(available@)[i as int] == name@);
            return true;
        }
        i = i + 1;
    }
    proof {
        if extension_name_seq(available@).contains(name@) {
            let k = choose|k: int|
                0 <= k < extension_name_seq(available@).len() && extension_name_seq(
                    available@,
                )[k] == name@;
            assert(available@[k].extension_name@ == name@);
        }
    }
    false
}

/// Whether `name` is the name of one of `available`, by exact match.
pub fn has_layer(available: &[LayerProperties], name: &String) -> (r: bool)
    ensures
        r == layer_name_seq(available@).contains(name@),
{
    let mut i: usize = 0;
    while i < available.len()
        invariant
            0 <= i <= available@.len(),
            forall|k: int| 0 <= k < i ==> available@[k].layer_name@ != name@,
        decreases available@.len() - i,
    {
        if available[i].layer_name == *name {
            assert(layer_name_seq(available@)[i as int] == name@);
            return true;
        }
        i = i + 1;
    }
    proof {
        if layer_name_seq(available@).contains(name@) {
            let k = choose|k: int|
                0 <= k < layer_name_seq(available@).len() && layer_name_seq(available@)[k]
                    == name@;
            assert(available@[k].layer_name@ == name@);
        }
    }
    false
}

/// Whether every requested name is among the available extensions.
pub fn extensions_supported(available: &[ExtensionProperties], requested: &[String]) -> (r: bool)
    ensures
        r == all_present(name_seq(requested@), extension_name_seq(available@)),
{
    let mut j: usize = 0;
    while j < requested.len()
        invariant
            0 <= j <= requested@.len(),
            forall|k: int|
                0 <= k < j ==> extension_name_seq(available@).contains(#[trigger] requested@[k]@),
        decreases requested@.len() - j,
    {
        if !has_extension(available, &requested[j]) {
            assert(name_seq(requested@)[j as int] == requested@[j as int]@);
            return false;
        }
        j = j + 1;
    }
    assert forall|k: int| 0 <= k < name_seq(requested@).len() implies extension_name_seq(
        available@,
    ).contains(#[trigger] name_seq(requested@)[k]) by {
        assert(name_seq(requested@)[k] == requested@[k]@);
    }
    true
}

/// Whether every required name is among the available layers.
pub fn layers_supported(available: &[LayerProperties], required: &[String]) -> (r: bool)
    ensures
        r == all_present(name_seq(required@), layer_name_seq(available@)),
{
    let mut j: usize = 0;
    while j < required.len()
        invariant
            0 <= j <= required@.len(),
            forall|k: int|
                0 <= k < j ==> layer_name_seq(available@).contains(#[trigger] required@[k]@),
        decreases required@.len() - j,
    {
        if !has_layer(available, &required[j]) {
            assert(name_seq(required@)[j as int] == required@[j as int]@);
            return false;
        }
        j = j + 1;
    }
    assert forall|k: int| 0 <= k < name_seq(required@).len() implies layer_name_seq(
        available@,
    ).contains(#[trigger] name_seq(required@)[k]) by {
        assert(name_seq(required@)[k] == required@[k]@);
    }
    true
}

/// The names of the given extension records, in order.
pub fn extension_names(extensions: &[ExtensionProperties]) -> (r: Vec<String>)
    ensures
        name_seq(r@) == extension_name_seq(extensions@),
{
    let mut out: Vec<String> = Vec::new();
    let mut i: usize = 0;
    while i < extensions.len()
        invariant
            0 <= i <= extensions@.len(),
            out@.len() == i,
            forall|k: int| 0 <= k < i ==> (#[trigger] out@[k])@ == extensions@[k].extension_name@,
        decreases extensions@.len() - i,
    {
        out.push(extensions[i].extension_name.clone());
        i = i + 1;
    }
    assert(name_seq(out@) =~= extension_name_seq(extensions@));
    out
}

} // verus!
