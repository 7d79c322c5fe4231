//! Music mode: a structure with a field `musicMode` that enumerates the
//! modes. One traversal of those modes serves both listing and finding.

use crate::color::{color_value, packed_color};
use crate::error::{ControlError, ErrorKind, Instance};
use crate::schema::{
    field_named, find_field_named, has_field_named_after, lemma_matching_ignores_case,
    named_again, option_matching, option_names, texts, DeviceParameters, EnumOption,
};
use crate::search::{first_index, is_first, lemma_first_index_is, lemma_first_index_none};
use crate::text::{eq_ignore_ascii_case, same_ignoring_ascii_case};
use crate::value::MusicModeValue;
use vstd::prelude::*;

verus! {

/// The modes that a music-mode schema enumerates: the options of its one
/// field named `musicMode`. A schema of any other shape does not fit: one
/// that is no structure, one whose field is no enumeration, one with two
/// fields of that name. A structure without the field lacks it.
pub open spec fn music_modes(parameters: DeviceParameters) -> Result<Seq<EnumOption>, ControlError> {
    match parameters {
        DeviceParameters::Struct { fields } => match first_index(
            fields@,
            field_named("musicMode"@),
        ) {
            Some(at) => match fields@[at].field_type {
                DeviceParameters::Enum { options } if !named_again(fields@, "musicMode"@, at) => Ok(
                    options@,
                ),
                _ => Err(ControlError::SchemaMismatch { instance: Instance::MusicMode }),
            },
            None => Err(ControlError::MusicModeFieldNotFound),
        },
        _ => Err(ControlError::SchemaMismatch { instance: Instance::MusicMode }),
    }
}

/// A structure with two fields named `musicMode` does not fit, whatever the
/// fields are.
pub proof fn lemma_music_mode_field_twice(parameters: DeviceParameters, first: int, second: int)
    requires
        parameters is Struct,
        0 <= first < second < parameters->fields@.len(),
        parameters->fields@[first].field_name@ == "musicMode"@,
        parameters->fields@[second].field_name@ == "musicMode"@,
    ensures
        music_modes(parameters) == Err::<Seq<EnumOption>, ControlError>(
            (ControlError::SchemaMismatch { instance: Instance::MusicMode }),
        ),
{
    let fields = parameters->fields@;
    lemma_first_index_none(fields, field_named("musicMode"@));
    assert(field_named("musicMode"@)(fields[first]));
    let at = first_index(fields, field_named("musicMode"@))->0;
    assert(is_first(fields, field_named("musicMode"@), at));
    assert(at <= first);
    assert(field_named("musicMode"@)(fields[second]));
}

/// The modes that a music-mode schema enumerates.
pub fn music_mode_options(parameters: &DeviceParameters) -> (modes: Result<
    &Vec<EnumOption>,
    ControlError,
>)
    ensures
        match modes {
            Ok(options) => music_modes(*parameters) == Ok::<Seq<EnumOption>, ControlError>(
                options@,
            ),
            Err(error) => music_modes(*parameters) == Err::<Seq<EnumOption>, ControlError>(error),
        },
{
    match parameters {
        DeviceParameters::Struct { fields } => match find_field_named(fields, "musicMode") {
            Some(at) => match &fields[at].field_type {
                DeviceParameters::Enum { options } => {
                    if has_field_named_after(fields, "musicMode", at) {
                        Err(ControlError::SchemaMismatch { instance: Instance::MusicMode })
                    } else {
                        Ok(options)
                    }
                },
                _ => Err(ControlError::SchemaMismatch { instance: Instance::MusicMode }),
            },
            None => Err(ControlError::MusicModeFieldNotFound),
        },
        _ => Err(ControlError::SchemaMismatch { instance: Instance::MusicMode }),
    }
}

/// Whether `trace` records a traversal of `options` by `apply`: it starts at
/// `trace[0]`, visits the options in order, one state of `trace` after each,
/// and goes on as long as `apply` says so. `completed` tells whether every
/// option was visited without `apply` calling a halt.
pub open spec fn is_traversal<A, F: Fn(A, &EnumOption) -> (A, bool)>(
    apply: F,
    options: Seq<EnumOption>,
    trace: Seq<A>,
    completed: bool,
) -> bool {
    let visited = trace.len() - 1;
    &&& 0 <= visited <= options.len()
    &&& completed ==> visited == options.len()
    &&& !completed ==> visited >= 1
    &&& forall|k: int|
        0 <= k < visited ==> call_ensures(
            apply,
            (trace[k], &options[k]),
            (#[trigger] trace[k + 1], completed || k + 1 < visited),
        )
}

/// Whether a traversal of `options` by `apply` leads from the state `start`
/// to the state `end`.
pub open spec fn traverses<A, F: Fn(A, &EnumOption) -> (A, bool)>(
    apply: F,
    options: Seq<EnumOption>,
    start: A,
    end: A,
    completed: bool,
) -> bool {
    exists|trace: Seq<A>|
        #![trigger is_traversal(apply, options, trace, completed)]
        {
            &&& is_traversal(apply, options, trace, completed)
            &&& trace[0] == start
            &&& trace.last() == end
        }
}

/// Visits the modes of a music-mode schema in order, handing each to `apply`
/// together with the state so far. `apply` gives back the next state and
/// whether to go on; the first halt ends the traversal. The result is the
/// last state, and whether the traversal ran to its end.
pub fn for_each_music_mode<A, F: Fn(A, &EnumOption) -> (A, bool)>(
    apply: F,
    start: A,
    parameters: &DeviceParameters,
) -> (done: Result<(A, bool), ControlError>)
    requires
        forall|state: A, option: &EnumOption| call_requires(apply, (state, option)),
    ensures
        match music_modes(*parameters) {
            Ok(options) => done matches Ok((end, completed)) && traverses(
                apply,
                options,
                start,
                end,
                completed,
            ),
            Err(error) => done == Err::<(A, bool), ControlError>(error),
        },
{
    let options = match music_mode_options(parameters) {
        Ok(options) => options,
        Err(error) => {
            return Err(error);
        },
    };
    let mut state = start;
    let ghost mut trace: Seq<A> = seq![start];
    let mut at: usize = 0;
    while at < options.len()
        invariant
            at <= options.len(),
            music_modes(*parameters) == Ok::<Seq<EnumOption>, ControlError>(options@),
            forall|state: A, option: &EnumOption| call_requires(apply, (state, option)),
            trace.len() == at + 1,
            trace[0] == start,
            trace.last() == state,
            forall|k: int|
                0 <= k < at ==> call_ensures(
                    apply,
                    (trace[k], &options@[k]),
                    (#[trigger] trace[k + 1], true),
                ),
        decreases options.len() - at,
    {
        let (next, go_on) = apply(state, &options[at]);
        proof {
            trace = trace.push(next);
        }
        if !go_on {
            assert(is_traversal(apply, options@, trace, false));
            assert(traverses(apply, options@, start, next, false));
            return Ok((next, false));
        }
        state = next;
        at += 1;
    }
    assert(is_traversal(apply, options@, trace, true));
    assert(traverses(apply, options@, start, state, true));
    Ok((state, true))
}

/// What listing the music modes gives: the names of the modes, in order.
pub open spec fn listed_music_modes(parameters: DeviceParameters) -> Result<
    Seq<Seq<char>>,
    ControlError,
> {
    match music_modes(parameters) {
        Ok(options) => Ok(option_names(options)),
        Err(error) => Err(error),
    }
}

/// What finding the mode `mode` gives: the payload of the first mode whose
/// name is `mode` once ASCII case is set aside.
pub open spec fn found_music_mode(parameters: DeviceParameters, mode: Seq<char>) -> Result<
    serde_json::Value,
    ControlError,
> {
    match music_modes(parameters) {
        Ok(options) => match first_index(options, option_matching(mode)) {
            Some(at) => Ok(options[at].value),
            None => Err(ControlError::MusicModeNotFound),
        },
        Err(error) => Err(error),
    }
}

/// Music modes are matched without regard to ASCII case: two requests that
/// differ only in case find the same payload.
pub proof fn lemma_music_mode_ignores_case(
    parameters: DeviceParameters,
    mode: Seq<char>,
    other: Seq<char>,
)
    requires
        same_ignoring_ascii_case(mode, other),
    ensures
        found_music_mode(parameters, mode) == found_music_mode(parameters, other),
{
    lemma_matching_ignores_case(mode, other);
}

/// A structure without a field named `musicMode` fails as not found, and so
/// does an enumeration of modes without a matching name.
pub proof fn lemma_music_mode_not_found(parameters: DeviceParameters, mode: Seq<char>)
    requires
        parameters is Struct,
    ensures
        (forall|at: int|
            0 <= at < parameters->fields@.len() ==> (#[trigger] parameters->fields@[at]).field_name@
                != "musicMode"@) ==> found_music_mode(parameters, mode) == Err::<
            serde_json::Value,
            ControlError,
        >(ControlError::MusicModeFieldNotFound),
        (music_modes(parameters) matches Ok(options) && forall|at: int|
            0 <= at < options.len() ==> !same_ignoring_ascii_case(
                mode,
                (#[trigger] options[at]).name@,
            )) ==> found_music_mode(parameters, mode) == Err::<serde_json::Value, ControlError>(
            ControlError::MusicModeNotFound,
        ),
        ControlError::MusicModeFieldNotFound.spec_kind() == ErrorKind::ValueNotFound,
        ControlError::MusicModeNotFound.spec_kind() == ErrorKind::ValueNotFound,
{
    lemma_first_index_none(parameters->fields@, field_named("musicMode"@));
    if music_modes(parameters) is Ok {
        lemma_first_index_none(music_modes(parameters)->Ok_0, option_matching(mode));
    }
}

/// A trace that grows by one name at each step holds, after `upto` steps, the
/// first `upto` names.
proof fn lemma_collected(options: Seq<EnumOption>, trace: Seq<Seq<Seq<char>>>, upto: int)
    requires
        0 <= upto < trace.len(),
        upto <= options.len(),
        trace[0] == Seq::<Seq<char>>::empty(),
        forall|k: int|
            0 <= k < upto ==> trace[k + 1] == trace[k].push((#[trigger] options[k]).name@),
    ensures
        trace[upto] == option_names(options.take(upto)),
    decreases upto,
{
    if upto > 0 {
        lemma_collected(options, trace, upto - 1);
        assert(trace[upto] == trace[upto - 1].push(options[upto - 1].name@));
        assert(option_names(options.take(upto)) == option_names(options.take(upto - 1)).push(
            options[upto - 1].name@,
        ));
    } else {
        assert(option_names(options.take(0)) == Seq::<Seq<char>>::empty());
    }
}

/// A trace that does not change while no mode matches still holds nothing
/// after `upto` such steps.
proof fn lemma_nothing_found(
    options: Seq<EnumOption>,
    mode: Seq<char>,
    trace: Seq<Option<serde_json::Value>>,
    upto: int,
)
    requires
        0 <= upto < trace.len(),
        upto <= options.len(),
        trace[0] is None,
        forall|k: int|
            0 <= k < upto ==> !option_matching(mode)(#[trigger] options[k]) && trace[k + 1]
                == trace[k],
    ensures
        trace[upto] is None,
    decreases upto,
{
    if upto > 0 {
        lemma_nothing_found(options, mode, trace, upto - 1);
        assert(!option_matching(mode)(options[upto - 1]));
    }
}

/// Lists the names of the music modes, in the order of the schema.
pub fn list_music_modes(parameters: &DeviceParameters) -> (names: Result<
    Vec<String>,
    ControlError,
>)
    ensures
        match names {
            Ok(names) => listed_music_modes(*parameters) == Ok::<Seq<Seq<char>>, ControlError>(
                texts(names@),
            ),
            Err(error) => listed_music_modes(*parameters) == Err::<Seq<Seq<char>>, ControlError>(
                error,
            ),
        },
{
    let collect = |names: Vec<String>, option: &EnumOption| -> (next: (Vec<String>, bool))
        ensures
            texts(next.0@) == texts(names@).push(option.name@),
            next.1,
        {
            let mut longer = names;
            longer.push(option.name.clone());
            assert(texts(longer@) == texts(names@).push(option.name@));
            (longer, true)
        };
    match for_each_music_mode(collect, Vec::new(), parameters) {
        Ok((names, completed)) => {
            proof {
                let options = music_modes(*parameters)->Ok_0;
                let trace = choose|trace: Seq<Vec<String>>|
                    #![trigger is_traversal(collect, options, trace, completed)]
                    {
                        &&& is_traversal(collect, options, trace, completed)
                        &&& trace[0]@ == Seq::<String>::empty()
                        &&& trace.last() == names
                    };
                let visited = trace.len() - 1;
                if !completed {
                    assert(call_ensures(
                        collect,
                        (trace[visited - 1], &options[visited - 1]),
                        (trace[(visited - 1) + 1], false),
                    ));
                }
                let shown = trace.map_values(|names: Vec<String>| texts(names@));
                assert(shown[0] == Seq::<Seq<char>>::empty());
                assert forall|k: int| 0 <= k < visited implies shown[k + 1] == shown[k].push(
                    (#[trigger] options[k]).name@,
                ) by {
                    assert(call_ensures(
                        collect,
                        (trace[k], &options[k]),
                        (trace[k + 1], true),
                    ));
                }
                lemma_collected(options, shown, visited);
                assert(options.take(visited) == options);
            }
            Ok(names)
        },
        Err(error) => Err(error),
    }
}

/// Finds the music mode `mode`, setting ASCII case aside, and gives the
/// payload of its option.
pub fn find_music_mode(parameters: &DeviceParameters, mode: &str) -> (payload: Result<
    serde_json::Value,
    ControlError,
>)
    ensures
        payload == found_music_mode(*parameters, mode@),
{
    let pick = |found: Option<serde_json::Value>, option: &EnumOption| -> (next: (
        Option<serde_json::Value>,
        bool,
    ))
        ensures
            next == if option_matching(mode@)(*option) {
                (Some(option.value), false)
            } else {
                (found, true)
            },
        {
            if eq_ignore_ascii_case(mode, option.name.as_str()) {
                (Some(option.value.clone()), false)
            } else {
                (found, true)
            }
        };
    match for_each_music_mode(pick, None, parameters) {
        Ok((found, completed)) => {
            proof {
                let options = music_modes(*parameters)->Ok_0;
                let trace = choose|trace: Seq<Option<serde_json::Value>>|
                    #![trigger is_traversal(pick, options, trace, completed)]
                    {
                        &&& is_traversal(pick, options, trace, completed)
                        &&& trace[0] is None
                        &&& trace.last() == found
                    };
                let visited = trace.len() - 1;
                let quiet = if completed {
                    visited
                } else {
                    visited - 1
                };
                assert forall|k: int| 0 <= k < quiet implies !option_matching(mode@)(
                    #[trigger] options[k],
                ) && trace[k + 1] == trace[k] by {
                    assert(call_ensures(pick, (trace[k], &options[k]), (trace[k + 1], true)));
                }
                lemma_nothing_found(options, mode@, trace, quiet);
                if completed {
                    lemma_first_index_none(options, option_matching(mode@));
                } else {
                    assert(call_ensures(
                        pick,
                        (trace[quiet], &options[quiet]),
                        (trace[quiet + 1], false),
                    ));
                    lemma_first_index_is(options, option_matching(mode@), quiet);
                }
            }
            match found {
                Some(payload) => Ok(payload),
                None => Err(ControlError::MusicModeNotFound),
            }
        },
        Err(error) => Err(error),
    }
}

/// The composite value that switches music mode on: the payload of the
/// mode, the sensitivity as asked, 1 or 0 for automatic colours, and the
/// packed colour where one was given.
pub open spec fn music_mode_value(
    payload: serde_json::Value,
    sensitivity: u8,
    auto_color: bool,
    color: Option<csscolorparser::Color>,
) -> MusicModeValue {
    MusicModeValue {
        music_mode: payload,
        sensitivity,
        auto_color: if auto_color {
            1u8
        } else {
            0u8
        },
        rgb: match color {
            Some(color) => Some(packed_color(color)),
            None => None,
        },
    }
}

/// What the music-mode intent resolves to.
pub open spec fn resolved_music_mode(
    parameters: DeviceParameters,
    mode: Seq<char>,
    sensitivity: u8,
    auto_color: bool,
    color: Option<csscolorparser::Color>,
) -> Result<MusicModeValue, ControlError> {
    match found_music_mode(parameters, mode) {
        Ok(payload) => Ok(music_mode_value(payload, sensitivity, auto_color, color)),
        Err(error) => Err(error),
    }
}

/// Builds the composite value around the payload of a mode.
pub fn compose_music_mode(
    payload: serde_json::Value,
    sensitivity: u8,
    auto_color: bool,
    color: Option<&csscolorparser::Color>,
) -> (value: MusicModeValue)
    ensures
        value == music_mode_value(
            payload,
            sensitivity,
            auto_color,
            match color {
                Some(color) => Some(*color),
                None => None,
            },
        ),
{
    MusicModeValue {
        music_mode: payload,
        sensitivity,
        auto_color: if auto_color {
            1
        } else {
            0
        },
        rgb: match color {
            Some(color) => Some(color_value(color)),
            None => None,
        },
    }
}

/// Music mode: finds the mode and builds the composite value around its
/// payload. The sensitivity is passed on as it is.
pub fn resolve_music_mode(
    parameters: &DeviceParameters,
    mode: &str,
    sensitivity: u8,
    auto_color: bool,
    color: Option<&csscolorparser::Color>,
) -> (value: Result<MusicModeValue, ControlError>)
    ensures
        value == resolved_music_mode(
            *parameters,
            mode@,
            sensitivity,
            auto_color,
            match color {
                Some(color) => Some(*color),
                None => None,
            },
        ),
{
    match find_music_mode(parameters, mode) {
        Ok(payload) => Ok(compose_music_mode(payload, sensitivity, auto_color, color)),
        Err(error) => Err(error),
    }
}

} // verus!
