//! Choosing the display to put the wallpaper on.

use vstd::prelude::*;

verus! {

/// What the compositor says of a display.
#[derive(Debug)]
pub struct OutputInfo {
    /// Its name, such as `DP-1`, if it has one.
    pub name: Option<String>,
}

/// The display that the wallpaper is put on.
#[derive(Debug, PartialEq, Eq)]
pub enum OutputChoice {
    /// The one that the user asked for, by its index.
    Target(usize),
    /// The one that the compositor picks, as there is none with the name that the
    /// user asked for. The user is shown what there is.
    NotFound { available: Vec<String> },
    /// The one that the compositor picks, as the user did not ask for any. The
    /// user is shown what there is.
    Unspecified { available: Vec<String> },
}

impl OutputChoice {
    /// The index of the display to name to the compositor, or `None` where the
    /// compositor picks one.
    pub fn target(&self) -> (index: Option<usize>)
        ensures
            index == match *self {
                OutputChoice::Target(found) => Some(found),
                _ => None,
            },
    {
        match self {
            OutputChoice::Target(found) => Some(*found),
            _ => None,
        }
    }
}

/// The name of a display, if the compositor has described it and named it.
pub open spec fn output_name(output: Option<OutputInfo>) -> Option<Seq<char>> {
    match output {
        Some(info) => crate::text::text_of(info.name),
        None => None,
    }
}

/// How a display is listed.
pub open spec fn listed_as(info: OutputInfo) -> Seq<char> {
    match info.name {
        Some(name) => name@,
        None => "(unnamed)"@,
    }
}

/// How the displays that the compositor has described are listed, in order.
pub open spec fn listing(outputs: Seq<Option<OutputInfo>>) -> Seq<Seq<char>>
    decreases outputs.len(),
{
    if outputs.len() == 0 {
        Seq::empty()
    } else {
        let before = listing(outputs.drop_last());
        match outputs.last() {
            Some(info) => before.push(listed_as(info)),
            None => before,
        }
    }
}

/// The texts of a list of strings.
pub open spec fn texts(strings: Seq<String>) -> Seq<Seq<char>> {
    strings.map_values(|string: String| string@)
}

/// Whether `index` is that of the first display with the given name.
pub open spec fn is_first_named(
    outputs: Seq<Option<OutputInfo>>,
    name: Seq<char>,
    index: int,
) -> bool {
    &&& 0 <= index < outputs.len()
    &&& output_name(outputs[index]) == Some(name)
    &&& forall|i: int| 0 <= i < index ==> output_name(#[trigger] outputs[i]) != Some(name)
}

/// Whether no display has the given name.
pub open spec fn is_unnamed(outputs: Seq<Option<OutputInfo>>, name: Seq<char>) -> bool {
    forall|i: int| 0 <= i < outputs.len() ==> output_name(#[trigger] outputs[i]) != Some(name)
}

/// The index of the first display with the given name, or `None` where there is
/// none. A display that the compositor has not described is passed over.
pub fn find_target_output(outputs: &Vec<Option<OutputInfo>>, name: &str) -> (target: Option<usize>)
    ensures
        match target {
            Some(found) => is_first_named(outputs@, name@, found as int),
            None => is_unnamed(outputs@, name@),
        },
{
    let wanted: String = name.to_owned();
    let mut i: usize = 0;
    while i < outputs.len()
        invariant
            i <= outputs@.len(),
            wanted@ == name@,
            forall|j: int| 0 <= j < i ==> output_name(#[trigger] outputs@[j]) != Some(name@),
        decreases outputs@.len() - i,
    {
        if let Some(info) = &outputs[i] {
            if let Some(held) = &info.name {
                if *held == wanted {
                    return Some(i);
                }
            }
        }
        i = i + 1;
    }
    None
}

/// The displays that there are to choose from.
pub fn available_outputs(outputs: &Vec<Option<OutputInfo>>) -> (names: Vec<String>)
    ensures
        texts(names@) == listing(outputs@),
{
    let mut names: Vec<String> = Vec::new();
    let mut i: usize = 0;
    assert(texts(names@) == listing(outputs@.take(0)));
    while i < outputs.len()
        invariant
            i <= outputs@.len(),
            texts(names@) == listing(outputs@.take(i as int)),
        decreases outputs@.len() - i,
    {
        let ghost before = texts(names@);
        assert(outputs@.take(i + 1).drop_last() == outputs@.take(i as int));
        if let Some(info) = &outputs[i] {
            let shown: String = match &info.name {
                Some(held) => held.clone(),
                None => "(unnamed)".to_owned(),
            };
            names.push(shown);
            assert(texts(names@) == before.push(listed_as(*info)));
        }
        i = i + 1;
    }
    assert(outputs@.take(i as int) == outputs@);
    names
}

/// Chooses the display by the name that the user asked for, if the user did.
pub fn choose_output(outputs: &Vec<Option<OutputInfo>>, wanted: &Option<String>) -> (choice:
    OutputChoice)
    ensures
        match choice {
            OutputChoice::Target(found) => wanted matches Some(name) && is_first_named(
                outputs@,
                name@,
                found as int,
            ),
            OutputChoice::NotFound { available } => {
                &&& wanted matches Some(name) && is_unnamed(outputs@, name@)
                &&& texts(available@) == listing(outputs@)
            },
            OutputChoice::Unspecified { available } => {
                &&& wanted is None
                &&& texts(available@) == listing(outputs@)
            },
        },
{
    match wanted {
        None => OutputChoice::Unspecified { available: available_outputs(outputs) },
        Some(name) => match find_target_output(outputs, name.as_str()) {
            Some(found) => OutputChoice::Target(found),
            None => OutputChoice::NotFound { available: available_outputs(outputs) },
        },
    }
}

/// A choice by name is settled by the names alone: a display is found exactly if
/// one has that name, and then it is the first of them and no other.
pub proof fn a_name_settles_the_choice(
    outputs: Seq<Option<OutputInfo>>,
    name: Seq<char>,
    first: int,
    second: int,
)
    ensures
        is_first_named(outputs, name, first) && is_first_named(outputs, name, second) ==> first
            == second,
        is_unnamed(outputs, name) ==> !is_first_named(outputs, name, first),
{
    if is_first_named(outputs, name, first) && is_first_named(outputs, name, second) {
        if first < second {
            assert(output_name(outputs[first]) != Some(name));
        }
        if second < first {
            assert(output_name(outputs[second]) != Some(name));
        }
    }
}

/// The user is shown every display that the compositor has described, and no
/// other.
pub proof fn every_described_output_is_listed(outputs: Seq<Option<OutputInfo>>, shown: Seq<char>)
    ensures
        listing(outputs).contains(shown) <==> exists|i: int|
            0 <= i < outputs.len() && (#[trigger] outputs[i]) is Some && listed_as(outputs[i]->0)
                == shown,
    decreases outputs.len(),
{
    if outputs.len() > 0 {
        let rest = outputs.drop_last();
        let last = outputs.len() - 1;
        every_described_output_is_listed(rest, shown);
        if listing(rest).contains(shown) {
            let i = choose|i: int|
                0 <= i < rest.len() && (#[trigger] rest[i]) is Some && listed_as(rest[i]->0)
                    == shown;
            assert(outputs[i] == rest[i]);
            let j = choose|j: int| 0 <= j < listing(rest).len() && listing(rest)[j] == shown;
            assert(listing(outputs)[j] == shown);
        }
        if outputs[last] is Some && listed_as(outputs[last]->0) == shown {
            assert(listing(outputs).last() == shown);
        }
        if exists|i: int|
            0 <= i < outputs.len() && (#[trigger] outputs[i]) is Some && listed_as(outputs[i]->0)
                == shown {
            let i = choose|i: int|
                0 <= i < outputs.len() && (#[trigger] outputs[i]) is Some && listed_as(
                    outputs[i]->0,
                ) == shown;
            if i < last {
                assert(rest[i] == outputs[i]);
            }
        }
        if listing(outputs).contains(shown) && !listing(rest).contains(shown) {
            let j = choose|j: int| 0 <= j < listing(outputs).len() && listing(outputs)[j] == shown;
            if j < listing(rest).len() {
                assert(listing(rest)[j] == shown);
            }
            assert(outputs[last] is Some);
        }
    }
}

/// A display has a name exactly if the compositor has described it and named it, and
/// then it is that name, letter for letter.
pub proof fn displays_have_the_names_that_they_were_given(output: Option<OutputInfo>)
    ensures
        output is None ==> output_name(output) is None,
        output matches Some(info) ==> (info.name is None ==> output_name(output) is None),
        output matches Some(info) ==> (info.name matches Some(name) ==> output_name(output) == Some(
            name@,
        )),
{
}

/// The display that is found has the name that was asked for, and none before it has.
/// Where none is found, none has it.
pub proof fn the_first_display_with_the_name_is_found(
    outputs: Seq<Option<OutputInfo>>,
    name: Seq<char>,
    index: int,
    i: int,
)
    requires
        0 <= i < outputs.len(),
    ensures
        is_first_named(outputs, name, index) ==> {
            &&& 0 <= index < outputs.len()
            &&& outputs[index] matches Some(info) && info.name matches Some(held) && held@ == name
            &&& (outputs[i] matches Some(info) && info.name matches Some(held) && held@ == name)
                ==> index <= i
        },
        is_unnamed(outputs, name) ==> !(outputs[i] matches Some(info) && info.name matches Some(
            held,
        ) && held@ == name),
{
    if is_unnamed(outputs, name) {
        assert(output_name(outputs[i]) != Some(name));
    }
    if is_first_named(outputs, name, index) && i < index {
        assert(output_name(outputs[i]) != Some(name));
    }
}

/// The listing is in order and complete: one more display adds one more line at the end,
/// its name or that it has none; one that the compositor has not described adds nothing.
pub proof fn the_listing_grows_by_each_display(
    outputs: Seq<Option<OutputInfo>>,
    output: Option<OutputInfo>,
)
    ensures
        listing(Seq::empty()).len() == 0,
        output is None ==> listing(outputs.push(output)) == listing(outputs),
        output matches Some(info) ==> (info.name matches Some(name) ==> listing(
            outputs.push(output),
        ) == listing(outputs).push(name@)),
        output matches Some(info) ==> (info.name is None ==> listing(outputs.push(output))
            == listing(outputs).push("(unnamed)"@)),
{
    assert(outputs.push(output).drop_last() == outputs);
}

/// The texts of a list are those of its strings, in order.
pub proof fn the_texts_are_those_of_the_strings(strings: Seq<String>, i: int)
    requires
        0 <= i < strings.len(),
    ensures
        texts(strings).len() == strings.len(),
        texts(strings)[i] == strings[i]@,
{
}

} // verus!
