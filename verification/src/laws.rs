//! What holds of the bridge as a whole, proved from the contracts of its parts.

use vstd::prelude::*;
use vstd::utf8::{decode_utf8, encode_utf8, encode_utf8_decode_utf8, encode_utf8_valid_utf8, valid_utf8};
use crate::error::{os_failure, ErrorKind, ErrorModel, OsError};
use crate::marshal::{first_invalid, get_outcome, list_outcome, names_outcome, unit_outcome, RawName};
use crate::operations::{GetAttributeTask, ListAttributesTask, RemoveAttributeTask, SetAttributeTask};
use crate::task::{Stage, Task};
use crate::value::AttributeValue;

verus! {

/// The stage of a task that was made, queued, taken by a worker and given the
/// outcome `outcome`.
pub open spec fn computed<V>(outcome: Result<V, ErrorModel>) -> Stage<V> {
    Stage::<V>::Created.submit().start().finish(outcome)
}

/// Where nothing is stored, `get` gives absence and no error, in the blocking
/// form and in the deferred one. A store that holds no such attribute answers
/// with no value, or says that nothing is at the path; either way the caller
/// sees `None`.
pub proof fn get_is_absent_without_a_value(native: Result<Option<Vec<u8>>, OsError>)
    requires
        native is Ok && native->Ok_0 is None || native is Err && native->Err_0.not_found,
    ensures
        get_outcome(native) == Ok::<Option<Seq<u8>>, ErrorModel>(None),
        GetAttributeTask::outcome(native) == Ok::<Option<Seq<u8>>, ErrorModel>(None),
        computed(GetAttributeTask::outcome(native)) is Completed,
{
}

/// Only a miss is swallowed. `get` gives an error exactly when the store failed
/// and it was not a miss; every other operation gives one whenever the store
/// failed. The error is that of the store, with its code and message.
pub proof fn only_a_miss_is_swallowed(
    found: Result<Option<Vec<u8>>, OsError>,
    done: Result<(), OsError>,
    listed: Result<Vec<RawName>, OsError>,
)
    ensures
        get_outcome(found) is Err <==> found is Err && !found->Err_0.not_found,
        get_outcome(found) is Err ==> get_outcome(found)->Err_0 == os_failure(found->Err_0),
        unit_outcome(done) is Err <==> done is Err,
        done is Err ==> unit_outcome(done)->Err_0 == os_failure(done->Err_0),
        listed is Err ==> list_outcome(listed) == Err::<Seq<Seq<char>>, ErrorModel>(
            os_failure(listed->Err_0),
        ),
{
}

/// A value reads back as it was written. If the store answers a `get` with the
/// bytes that a `set` of `value` handed to it, the caller gets exactly the
/// bytes of `value`: raw bytes as they were given, text as its UTF-8 encoding,
/// which decodes to the text again.
pub proof fn value_reads_back(value: AttributeValue, native: Result<Option<Vec<u8>>, OsError>)
    requires
        native matches Ok(Some(stored)) && stored@ == value@,
    ensures
        get_outcome(native) == Ok::<Option<Seq<u8>>, ErrorModel>(Some(value@)),
        value matches AttributeValue::Bytes(raw) ==> get_outcome(native) == Ok::<
            Option<Seq<u8>>,
            ErrorModel,
        >(Some(raw@)),
        value matches AttributeValue::Text(text) ==> get_outcome(native) == Ok::<
            Option<Seq<u8>>,
            ErrorModel,
        >(Some(encode_utf8(text@))) && valid_utf8(value@) && decode_utf8(value@) == text@,
{
    if let AttributeValue::Text(text) = value {
        encode_utf8_valid_utf8(text@);
        encode_utf8_decode_utf8(text@);
    }
}

/// A name that is not valid text has a first such name at or before it.
proof fn some_invalid_name_is_first(names: Seq<RawName>, i: int)
    requires
        0 <= i < names.len(),
        !names[i].is_text(),
    ensures
        exists|k: int| 0 <= k <= i && first_invalid(names, k),
    decreases i,
{
    if forall|j: int| 0 <= j < i ==> names[j].is_text() {
        assert(first_invalid(names, i));
    } else {
        let j = choose|j: int| 0 <= j < i && !names[j].is_text();
        some_invalid_name_is_first(names, j);
    }
}

/// Only one name can be the first that is not valid text.
pub proof fn first_invalid_is_unique(names: Seq<RawName>, k: int, l: int)
    requires
        first_invalid(names, k),
        first_invalid(names, l),
    ensures
        k == l,
{
}

/// A listing is all or nothing. It fails exactly when some name of the store is
/// not valid text, and the error is then an `InvalidArgument` that describes
/// the first such name. No part of the list comes back.
pub proof fn listing_fails_on_any_invalid_name(names: Seq<RawName>)
    ensures
        names_outcome(names) is Err <==> exists|i: int|
            0 <= i < names.len() && !names[i].is_text(),
        names_outcome(names) matches Err(error) ==> error.kind == ErrorKind::InvalidArgument
            && exists|k: int|
            first_invalid(names, k) && error.message == "Invalid attribute: "@
                + names[k].description@,
{
    if exists|i: int| 0 <= i < names.len() && !names[i].is_text() {
        let i = choose|i: int| 0 <= i < names.len() && !names[i].is_text();
        some_invalid_name_is_first(names, i);
    }
}

/// A listing keeps what the store listed, in the order of the store. Where
/// every name is valid text, there are as many texts as names and each stands
/// at the place of its name; so the same answer of the store always gives the
/// same list.
pub proof fn listing_keeps_names_in_order(names: Seq<RawName>)
    requires
        forall|i: int| 0 <= i < names.len() ==> names[i].is_text(),
    ensures
        names_outcome(names) matches Ok(texts) && texts.len() == names.len() && forall|i: int|
            0 <= i < names.len() ==> texts[i] == names[i].text(),
{
}

/// A name that was written as text is listed as that text. If the store lists
/// the UTF-8 encoding of `text` at place `i`, and every name is valid text,
/// then `text` stands at place `i` of the listing.
pub proof fn listing_holds_a_name_that_was_set(names: Seq<RawName>, i: int, text: Seq<char>)
    requires
        forall|j: int| 0 <= j < names.len() ==> names[j].is_text(),
        0 <= i < names.len(),
        names[i].bytes@ == encode_utf8(text),
    ensures
        names_outcome(names) matches Ok(texts) && texts.len() == names.len() && texts[i] == text,
{
    encode_utf8_decode_utf8(text);
}

/// A task that runs its course holds the outcome that was computed, and gives
/// it up when it is resolved.
pub proof fn full_run_delivers_the_outcome<V>(outcome: Result<V, ErrorModel>)
    ensures
        computed(outcome).pending() == Some(outcome),
        outcome is Ok <==> computed(outcome) is Completed,
        outcome is Err <==> computed(outcome) is Failed,
        computed(outcome).resolve() is Resolved,
{
}

/// The deferred form of an operation gives what the blocking form gives. For
/// the same answer of the store, what the host takes from a task that ran its
/// course is what the blocking function returns: the same value or the same
/// error.
pub proof fn deferred_matches_blocking(
    found: Result<Option<Vec<u8>>, OsError>,
    done: Result<(), OsError>,
    listed: Result<Vec<RawName>, OsError>,
)
    ensures
        computed(GetAttributeTask::outcome(found)).pending() == Some(get_outcome(found)),
        computed(SetAttributeTask::outcome(done)).pending() == Some(unit_outcome(done)),
        computed(RemoveAttributeTask::outcome(done)).pending() == Some(unit_outcome(done)),
        computed(ListAttributesTask::outcome(listed)).pending() == Some(list_outcome(listed)),
{
}

/// How far a task has come.
pub open spec fn progress<V>(stage: Stage<V>) -> nat {
    match stage {
        Stage::Created => 0,
        Stage::Queued => 1,
        Stage::Running => 2,
        Stage::Completed(_) => 3,
        Stage::Failed(_) => 3,
        Stage::Resolved => 4,
    }
}

/// A task only moves forward, and by one step at a time.
pub proof fn steps_move_forward<V>(stage: Stage<V>, outcome: Result<V, ErrorModel>)
    ensures
        progress(stage) <= progress(stage.submit()) <= progress(stage) + 1,
        progress(stage) <= progress(stage.start()) <= progress(stage) + 1,
        progress(stage) <= progress(stage.finish(outcome)) <= progress(stage) + 1,
        progress(stage) <= progress(stage.resolve()) <= progress(stage) + 1,
{
}

/// A task that is done is not run again. Once it holds a result or an error,
/// nothing but `resolve` changes it: there is no retry.
pub proof fn done_is_not_run_again<V>(stage: Stage<V>, outcome: Result<V, ErrorModel>)
    requires
        stage.pending() is Some,
    ensures
        stage.submit() == stage,
        stage.start() == stage,
        stage.finish(outcome) == stage,
{
}

/// A task is used once. What it holds is handed over by the first `resolve`;
/// after that nothing waits, and no step changes a resolved task.
pub proof fn resolved_is_final<V>(stage: Stage<V>, outcome: Result<V, ErrorModel>)
    ensures
        stage.resolve().pending() is None,
        stage.resolve().resolve() == stage.resolve(),
        stage is Resolved ==> stage.submit() == stage && stage.start() == stage && stage.finish(
            outcome,
        ) == stage && stage.resolve() == stage,
{
}

} // verus!
