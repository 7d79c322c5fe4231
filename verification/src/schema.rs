//! The capability model of a device: what each capability is called and
//! which values it takes.

use crate::search::{as_place, first_index, lemma_first_index_is, lemma_first_index_none};
use crate::text::{eq_ignore_ascii_case, same_ignoring_ascii_case, str_eq};
use vstd::prelude::*;

verus! {

/// `serde_json::Value`, a JSON value. It is carried from a schema to a
/// control request and never looked into.
#[verifier::external_type_specification]
#[verifier::external_body]
pub struct ExJsonValue(serde_json::Value);

/// `serde_json::Value::clone`, the derived copy: it is taken to be equal to
/// the value it was made from.
pub assume_specification[ <serde_json::Value as Clone>::clone ](
    value: &serde_json::Value,
) -> (copy: serde_json::Value)
    ensures
        copy == *value,
;

/// The bounds of an integer parameter.
#[derive(Clone, Copy, Debug)]
pub struct IntegerRange {
    pub min: u32,
    pub max: u32,
    pub step: Option<u32>,
}

/// One choice of an enumerated parameter: the label shown to people, and the
/// payload that is sent back to the device as it stands.
#[derive(Debug)]
pub struct EnumOption {
    pub name: String,
    pub value: serde_json::Value,
}

/// One named member of a structured parameter.
#[derive(Debug)]
pub struct StructField {
    pub field_name: String,
    pub field_type: DeviceParameters,
}

/// What a capability takes as its value.
#[derive(Debug)]
pub enum DeviceParameters {
    /// Any integer between the bounds of `range`.
    Integer { range: IntegerRange },
    /// One of the listed options.
    Enum { options: Vec<EnumOption> },
    /// An object with the listed fields.
    Struct { fields: Vec<StructField> },
}

/// A named thing that a device can be told.
#[derive(Debug)]
pub struct Capability {
    pub instance: String,
    pub parameters: DeviceParameters,
}

/// A device: who it is, and what it can be told, in the vendor's order.
#[derive(Debug)]
pub struct Device {
    pub id: String,
    pub capabilities: Vec<Capability>,
}

/// The options whose name is `name`, letter for letter.
pub open spec fn option_named(name: Seq<char>) -> spec_fn(EnumOption) -> bool {
    |option: EnumOption| option.name@ == name
}

/// The options whose name is `name` once ASCII case is set aside.
pub open spec fn option_matching(name: Seq<char>) -> spec_fn(EnumOption) -> bool {
    |option: EnumOption| same_ignoring_ascii_case(name, option.name@)
}

/// Names that differ only in ASCII case pick the same options.
pub proof fn lemma_matching_ignores_case(name: Seq<char>, other: Seq<char>)
    requires
        same_ignoring_ascii_case(name, other),
    ensures
        option_matching(name) == option_matching(other),
{
    assert(option_matching(name) =~= option_matching(other));
}

/// The names of a list of options, in order.
pub open spec fn option_names(options: Seq<EnumOption>) -> Seq<Seq<char>> {
    options.map_values(|option: EnumOption| option.name@)
}

/// The texts of a list of strings.
pub open spec fn texts(names: Seq<String>) -> Seq<Seq<char>> {
    names.map_values(|name: String| name@)
}

/// The fields whose name is `name`, letter for letter.
pub open spec fn field_named(name: Seq<char>) -> spec_fn(StructField) -> bool {
    |field: StructField| field.field_name@ == name
}

/// The capabilities whose instance is `name`, letter for letter.
pub open spec fn capability_named(name: Seq<char>) -> spec_fn(Capability) -> bool {
    |capability: Capability| capability.instance@ == name
}

/// The place of the first option called `name`, letter for letter.
pub fn find_option_named(options: &Vec<EnumOption>, name: &str) -> (found: Option<usize>)
    ensures
        as_place(found) == first_index(options@, option_named(name@)),
{
    let mut at: usize = 0;
    while at < options.len()
        invariant
            at <= options.len(),
            forall|before: int| 0 <= before < at ==> !option_named(name@)(#[trigger] options@[before]),
        decreases options.len() - at,
    {
        if str_eq(options[at].name.as_str(), name) {
            proof {
                lemma_first_index_is(options@, option_named(name@), at as int);
            }
            return Some(at);
        }
        at += 1;
    }
    proof {
        lemma_first_index_none(options@, option_named(name@));
    }
    None
}

/// The place of the first option whose name is `name` once ASCII case is set
/// aside.
pub fn find_option_matching(options: &Vec<EnumOption>, name: &str) -> (found: Option<usize>)
    ensures
        as_place(found) == first_index(options@, option_matching(name@)),
{
    let mut at: usize = 0;
    while at < options.len()
        invariant
            at <= options.len(),
            forall|before: int|
                0 <= before < at ==> !option_matching(name@)(#[trigger] options@[before]),
        decreases options.len() - at,
    {
        if eq_ignore_ascii_case(name, options[at].name.as_str()) {
            proof {
                lemma_first_index_is(options@, option_matching(name@), at as int);
            }
            return Some(at);
        }
        at += 1;
    }
    proof {
        lemma_first_index_none(options@, option_matching(name@));
    }
    None
}

/// The place of the first field called `name`, letter for letter.
pub fn find_field_named(fields: &Vec<StructField>, name: &str) -> (found: Option<usize>)
    ensures
        as_place(found) == first_index(fields@, field_named(name@)),
{
    let mut at: usize = 0;
    while at < fields.len()
        invariant
            at <= fields.len(),
            forall|before: int| 0 <= before < at ==> !field_named(name@)(#[trigger] fields@[before]),
        decreases fields.len() - at,
    {
        if str_eq(fields[at].field_name.as_str(), name) {
            proof {
                lemma_first_index_is(fields@, field_named(name@), at as int);
            }
            return Some(at);
        }
        at += 1;
    }
    proof {
        lemma_first_index_none(fields@, field_named(name@));
    }
    None
}

/// Whether a field behind the place `at` is called `name`, letter for letter.
pub open spec fn named_again(fields: Seq<StructField>, name: Seq<char>, at: int) -> bool {
    exists|other: int| at < other < fields.len() && field_named(name)(#[trigger] fields[other])
}

/// Whether a field behind the place `at` is called `name`, letter for letter.
pub fn has_field_named_after(fields: &Vec<StructField>, name: &str, at: usize) -> (again: bool)
    ensures
        again == named_again(fields@, name@, at as int),
{
    if at >= fields.len() {
        return false;
    }
    let mut other: usize = at + 1;
    while other < fields.len()
        invariant
            at < other <= fields.len(),
            forall|before: int|
                at < before < other ==> !field_named(name@)(#[trigger] fields@[before]),
        decreases fields.len() - other,
    {
        if str_eq(fields[other].field_name.as_str(), name) {
            return true;
        }
        other += 1;
    }
    false
}

impl DeviceParameters {
    /// The payload of the first option called `name`, letter for letter; none
    /// where the schema is no enumeration or has no such option.
    pub open spec fn spec_enum_parameter_by_name(&self, name: Seq<char>) -> Option<
        serde_json::Value,
    > {
        match self {
            DeviceParameters::Enum { options } => match first_index(
                options@,
                option_named(name),
            ) {
                Some(at) => Some(options@[at].value),
                None => None,
            },
            _ => None,
        }
    }

    /// The payload of the first option called `name`, letter for letter.
    pub fn enum_parameter_by_name(&self, name: &str) -> (value: Option<serde_json::Value>)
        ensures
            value == self.spec_enum_parameter_by_name(name@),
    {
        match self {
            DeviceParameters::Enum { options } => match find_option_named(options, name) {
                Some(at) => Some(options[at].value.clone()),
                None => None,
            },
            _ => None,
        }
    }
}

impl Capability {
    /// The payload of the first option of this capability called `name`,
    /// letter for letter.
    pub fn enum_parameter_by_name(&self, name: &str) -> (value: Option<serde_json::Value>)
        ensures
            value == self.parameters.spec_enum_parameter_by_name(name@),
    {
        self.parameters.enum_parameter_by_name(name)
    }
}

/// The place of the first capability whose instance is `instance`, letter for
/// letter.
pub fn find_capability(capabilities: &Vec<Capability>, instance: &str) -> (found: Option<usize>)
    ensures
        as_place(found) == first_index(capabilities@, capability_named(instance@)),
{
    let mut at: usize = 0;
    while at < capabilities.len()
        invariant
            at <= capabilities.len(),
            forall|before: int|
                0 <= before < at ==> !capability_named(instance@)(
                    #[trigger] capabilities@[before],
                ),
        decreases capabilities.len() - at,
    {
        if str_eq(capabilities[at].instance.as_str(), instance) {
            proof {
                lemma_first_index_is(capabilities@, capability_named(instance@), at as int);
            }
            return Some(at);
        }
        at += 1;
    }
    proof {
        lemma_first_index_none(capabilities@, capability_named(instance@));
    }
    None
}

impl Device {
    /// The first capability whose instance is `instance`, if the device has
    /// one.
    pub open spec fn spec_capability_by_instance(&self, instance: Seq<char>) -> Option<
        Capability,
    > {
        match first_index(self.capabilities@, capability_named(instance)) {
            Some(at) => Some(self.capabilities@[at]),
            None => None,
        }
    }

    /// The first capability whose instance is `instance`, letter for letter.
    /// That there is none is no failure here: the caller decides.
    pub fn capability_by_instance(&self, instance: &str) -> (found: Option<&Capability>)
        ensures
            found == match self.spec_capability_by_instance(instance@) {
                Some(capability) => Some(&capability),
                None => None,
            },
    {
        match find_capability(&self.capabilities, instance) {
            Some(at) => Some(&self.capabilities[at]),
            None => None,
        }
    }
}

} // verus!
