//! Scenes: a device may spread them over several capabilities, each an
//! enumeration. They are searched in the order of the capabilities, and
//! within one in the order of its options.

use crate::error::ControlError;
use crate::schema::{
    find_option_matching, lemma_matching_ignores_case, option_matching, option_names, texts,
    Capability, DeviceParameters, EnumOption,
};
use crate::search::{first_index, lemma_first_index_is, lemma_first_index_none};
use crate::text::same_ignoring_ascii_case;
use crate::value::{ControlRequest, ControlValue};
use vstd::prelude::*;

verus! {

/// The capabilities at which the search for the scene `name` ends: one that
/// is no enumeration, or one that has an option matching `name`.
pub open spec fn ends_search(name: Seq<char>) -> spec_fn(Capability) -> bool {
    |capability: Capability|
        match capability.parameters {
            DeviceParameters::Enum { options } => first_index(options@, option_matching(name))
                is Some,
            _ => true,
        }
}

/// What activating the scene `name` resolves to: the first option, over all
/// capabilities in order, whose name is `name` once ASCII case is set aside.
/// A capability that is no enumeration and comes before any match is a
/// failure.
pub open spec fn resolved_scene(scenes: Seq<Capability>, name: Seq<char>) -> Result<
    ControlRequest,
    ControlError,
> {
    match first_index(scenes, ends_search(name)) {
        Some(at) => match scenes[at].parameters {
            DeviceParameters::Enum { options } => Ok(
                ControlRequest {
                    capability: at as usize,
                    value: ControlValue::Payload(
                        options@[first_index(options@, option_matching(name))->0].value,
                    ),
                },
            ),
            _ => Err(ControlError::SceneSchemaMismatch { capability: at as usize }),
        },
        None => Err(ControlError::SceneNotFound),
    }
}

/// Scene names are matched without regard to ASCII case: two requests that
/// differ only in case resolve alike.
pub proof fn lemma_scene_ignores_case(scenes: Seq<Capability>, name: Seq<char>, other: Seq<char>)
    requires
        same_ignoring_ascii_case(name, other),
    ensures
        resolved_scene(scenes, name) == resolved_scene(scenes, other),
{
    lemma_matching_ignores_case(name, other);
    assert(ends_search(name) =~= ends_search(other));
}

/// The search runs over all the capabilities and ends at the first match:
/// where no capability before the one at `at` has a matching option (each
/// being an enumeration), and `option` is the first matching option of that
/// one, the scene resolves to that capability and the payload of that option.
pub proof fn lemma_scene_is_first_match(
    scenes: Seq<Capability>,
    name: Seq<char>,
    at: int,
    option: int,
)
    requires
        0 <= at < scenes.len(),
        forall|before: int|
            0 <= before < at ==> (#[trigger] scenes[before]).parameters is Enum && first_index(
                scenes[before].parameters->options@,
                option_matching(name),
            ) is None,
        scenes[at].parameters is Enum,
        first_index(scenes[at].parameters->options@, option_matching(name)) == Some(option),
    ensures
        resolved_scene(scenes, name) == Ok::<ControlRequest, ControlError>(
            ControlRequest {
                capability: at as usize,
                value: ControlValue::Payload(scenes[at].parameters->options@[option].value),
            },
        ),
{
    lemma_first_index_is(scenes, ends_search(name), at);
}

/// Resolves the scene `name` to the capability that holds it and the payload
/// of its option.
pub fn activate_scene(scenes: &Vec<Capability>, name: &str) -> (request: Result<
    ControlRequest,
    ControlError,
>)
    ensures
        request == resolved_scene(scenes@, name@),
{
    let mut at: usize = 0;
    while at < scenes.len()
        invariant
            at <= scenes.len(),
            forall|before: int| 0 <= before < at ==> !ends_search(name@)(#[trigger] scenes@[before]),
        decreases scenes.len() - at,
    {
        match &scenes[at].parameters {
            DeviceParameters::Enum { options } => {
                if let Some(option) = find_option_matching(options, name) {
                    proof {
                        lemma_first_index_is(scenes@, ends_search(name@), at as int);
                    }
                    return Ok(
                        ControlRequest {
                            capability: at,
                            value: ControlValue::Payload(options[option].value.clone()),
                        },
                    );
                }
            },
            _ => {
                proof {
                    lemma_first_index_is(scenes@, ends_search(name@), at as int);
                }
                return Err(ControlError::SceneSchemaMismatch { capability: at });
            },
        }
        at += 1;
    }
    proof {
        lemma_first_index_none(scenes@, ends_search(name@));
    }
    Err(ControlError::SceneNotFound)
}

/// The capabilities that are no enumeration.
pub open spec fn not_enumerated() -> spec_fn(Capability) -> bool {
    |capability: Capability| !(capability.parameters is Enum)
}

/// The names of the options of one scene capability.
pub open spec fn scene_names_of(capability: Capability) -> Seq<Seq<char>> {
    match capability.parameters {
        DeviceParameters::Enum { options } => option_names(options@),
        _ => Seq::empty(),
    }
}

/// The names of all the options of a list of capabilities, in order.
pub open spec fn all_scene_names(scenes: Seq<Capability>) -> Seq<Seq<char>> {
    scenes.map_values(|capability: Capability| scene_names_of(capability)).flatten()
}

/// The names that listing shows: those of every capability before the first
/// that is no enumeration.
pub open spec fn listed_scene_names(scenes: Seq<Capability>) -> Seq<Seq<char>> {
    match first_index(scenes, not_enumerated()) {
        Some(at) => all_scene_names(scenes.take(at)),
        None => all_scene_names(scenes),
    }
}

/// The failure that ends a listing early, if there is one.
pub open spec fn listing_failure(scenes: Seq<Capability>) -> Option<ControlError> {
    match first_index(scenes, not_enumerated()) {
        Some(at) => Some(ControlError::SceneSchemaMismatch { capability: at as usize }),
        None => None,
    }
}

/// What listing the scenes gives: the names to show, and the failure that cut
/// the list short, if one did.
#[derive(Debug)]
pub struct SceneListing {
    pub names: Vec<String>,
    pub failure: Option<ControlError>,
}

proof fn lemma_names_extend(scenes: Seq<Capability>, at: int)
    requires
        0 <= at < scenes.len(),
    ensures
        all_scene_names(scenes.take(at + 1)) == all_scene_names(scenes.take(at)) + scene_names_of(
            scenes[at],
        ),
{
    let names_of = |capability: Capability| scene_names_of(capability);
    assert(scenes.take(at + 1).map_values(names_of) == scenes.take(at).map_values(names_of).push(
        scene_names_of(scenes[at]),
    ));
    scenes.take(at).map_values(names_of).lemma_flatten_push(scene_names_of(scenes[at]));
}

/// Appends the names of `options` to `names`.
fn push_option_names(names: &mut Vec<String>, options: &Vec<EnumOption>)
    ensures
        texts(final(names)@) == texts(old(names)@) + option_names(options@),
{
    let mut at: usize = 0;
    while at < options.len()
        invariant
            at <= options.len(),
            texts(names@) == texts(old(names)@) + option_names(options@.take(at as int)),
        decreases options.len() - at,
    {
        let ghost before = names@;
        names.push(options[at].name.clone());
        assert(texts(names@) == texts(before).push(options@[at as int].name@));
        assert(option_names(options@.take(at + 1)) == option_names(options@.take(at as int)).push(
            options@[at as int].name@,
        ));
        at += 1;
    }
    assert(options@.take(at as int) == options@);
}

/// Lists the names of the scenes, capability by capability, up to the first
/// capability that is no enumeration.
pub fn list_scenes(scenes: &Vec<Capability>) -> (listing: SceneListing)
    ensures
        texts(listing.names@) == listed_scene_names(scenes@),
        listing.failure == listing_failure(scenes@),
{
    let mut names: Vec<String> = Vec::new();
    let mut at: usize = 0;
    assert(all_scene_names(scenes@.take(0)) == Seq::<Seq<char>>::empty()) by {
        reveal_with_fuel(Seq::flatten, 1);
        assert(scenes@.take(0).map_values(|capability: Capability| scene_names_of(capability))
            == Seq::<Seq<Seq<char>>>::empty());
    }
    while at < scenes.len()
        invariant
            at <= scenes.len(),
            forall|before: int| 0 <= before < at ==> !not_enumerated()(#[trigger] scenes@[before]),
            texts(names@) == all_scene_names(scenes@.take(at as int)),
        decreases scenes.len() - at,
    {
        match &scenes[at].parameters {
            DeviceParameters::Enum { options } => {
                push_option_names(&mut names, options);
                proof {
                    lemma_names_extend(scenes@, at as int);
                }
            },
            _ => {
                proof {
                    lemma_first_index_is(scenes@, not_enumerated(), at as int);
                }
                return SceneListing {
                    names,
                    failure: Some(ControlError::SceneSchemaMismatch { capability: at }),
                };
            },
        }
        at += 1;
    }
    proof {
        lemma_first_index_none(scenes@, not_enumerated());
        assert(scenes@.take(at as int) == scenes@);
    }
    SceneListing { names, failure: None }
}

} // verus!
