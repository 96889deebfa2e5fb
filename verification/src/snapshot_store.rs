//! How instruction snapshots are kept in a journal and read back from it.

use crate::entries::same_entries;
use crate::error::{answers, is_config_error, RuntimeError, StoreError, Verdict};
use crate::instruction_snapshots::{
    is_snapshot_id, snapshot_stream, snapshot_verification_error, sound, verification_text, InstructionSnapshot,
    InstructionSourceSnapshot, SnapshotView,
};
use crate::text::{same_text, same_texts};
use vstd::prelude::*;
use vstd::string::*;

verus! {

/// The shape of a journal event.
#[derive(Debug)]
pub struct SnapshotEvent {
    pub event_version: u16,
    /// Whether the event is classified as one of the system.
    pub system: bool,
    pub event_type: String,
}

/// The event that keeps a snapshot.
#[derive(Debug)]
pub struct SnapshotRecord {
    pub event: SnapshotEvent,
    pub stream_id: String,
    pub expected_stream_version: u64,
    /// The system actor that writes it.
    pub actor_id: String,
    pub correlation_id: String,
}

/// An event has the shape of a kept snapshot.
pub open spec fn snapshot_shaped(event: SnapshotEvent) -> bool {
    event.event_version == 1 && event.system && event.event_type@ == "instruction.snapshot.v1"@
}

/// The record is the first event of the snapshot's own stream.
pub open spec fn keeps(record: SnapshotRecord, snapshot: SnapshotView) -> bool {
    &&& snapshot_shaped(record.event)
    &&& record.stream_id@ == "instruction-snapshot:"@ + snapshot.id
    &&& record.expected_stream_version == 0
    &&& record.actor_id@ == "instruction-snapshot-store"@
    &&& record.correlation_id@ == record.stream_id@
}

fn same_sources(left: &Vec<InstructionSourceSnapshot>, right: &Vec<InstructionSourceSnapshot>) -> (same: bool)
    ensures
        same == (left@.len() == right@.len() && forall|i: int|
            0 <= i < left@.len() ==> (#[trigger] left@[i])@ == right@[i]@),
{
    if left.len() != right.len() {
        return false;
    }
    let mut i: usize = 0;
    while i < left.len()
        invariant
            i <= left@.len() == right@.len(),
            forall|j: int| 0 <= j < i ==> (#[trigger] left@[j])@ == right@[j]@,
        decreases left@.len() - i,
    {
        let a = &left[i];
        let b = &right[i];
        if a.kind != b.kind || !same_text(a.sha256.as_str(), b.sha256.as_str()) || !same_text(
            a.contents.as_str(),
            b.contents.as_str(),
        ) {
            proof {
                assert(left@[i as int]@ != right@[i as int]@);
            }
            return false;
        }
        i = i + 1;
    }
    true
}

/// Whether two snapshots are the same in every field.
pub fn same_snapshot(left: &InstructionSnapshot, right: &InstructionSnapshot) -> (same: bool)
    ensures
        same == (left@ == right@),
{
    let sources = same_sources(&left.sources, &right.sources);
    let plugins = same_entries(&left.plugin_digests, &right.plugin_digests) && same_texts(
        &left.plugin_skill_ids,
        &right.plugin_skill_ids,
    );
    let same = left.version == right.version && same_text(left.id.as_str(), right.id.as_str()) && sources && plugins;
    proof {
        if same {
            assert(left@.sources =~= right@.sources);
        }
        if left@ == right@ {
            assert(left@.sources.len() == right@.sources.len());
            assert forall|i: int| 0 <= i < left.sources@.len() implies (#[trigger] left.sources@[i])@
                == right.sources@[i]@ by {
                assert(left@.sources[i] == right@.sources[i]);
            }
        }
    }
    same
}

/// Whether a stream holds a kept snapshot: nothing, or exactly one event of the right shape.
pub fn stored_event(events: &Vec<SnapshotEvent>) -> (present: Result<bool, RuntimeError>)
    ensures
        if events@.len() == 0 {
            present == Ok::<bool, RuntimeError>(false)
        } else if events@.len() == 1 && snapshot_shaped(events@[0]) {
            present == Ok::<bool, RuntimeError>(true)
        } else {
            is_config_error(present, verification_text())
        },
{
    if events.len() == 0 {
        return Ok(false);
    }
    let event = &events[0];
    if events.len() != 1 || event.event_version != 1 || !event.system || !same_text(
        event.event_type.as_str(),
        "instruction.snapshot.v1",
    ) {
        return snapshot_verification_error();
    }
    Ok(true)
}

/// A read snapshot is the one that was asked for and can be relied on.
pub open spec fn acceptable(id: Seq<char>, snapshot: SnapshotView) -> bool {
    sound(snapshot) && snapshot.id == id
}

/// The snapshot read from the stream of `id`; absent where its payload is no snapshot.
pub fn accept_stored(id: &str, decoded: Option<InstructionSnapshot>) -> (result: Result<
    InstructionSnapshot,
    RuntimeError,
>)
    ensures
        match decoded {
            Some(snapshot) if acceptable(id@, snapshot@) => result == Ok::<InstructionSnapshot, RuntimeError>(snapshot),
            _ => is_config_error(result, verification_text()),
        },
{
    match decoded {
        Some(snapshot) => {
            match snapshot.validate() {
                Ok(()) => {},
                Err(_) => {
                    return snapshot_verification_error();
                },
            }
            if !same_text(snapshot.id.as_str(), id) {
                return snapshot_verification_error();
            }
            Ok(snapshot)
        },
        None => snapshot_verification_error(),
    }
}

/// A snapshot that has to exist.
pub fn require_stored(loaded: Option<InstructionSnapshot>) -> (result: Result<InstructionSnapshot, RuntimeError>)
    ensures
        match loaded {
            Some(snapshot) => result == Ok::<InstructionSnapshot, RuntimeError>(snapshot),
            None => is_config_error(result, verification_text()),
        },
{
    match loaded {
        Some(snapshot) => Ok(snapshot),
        None => snapshot_verification_error(),
    }
}

/// What keeping a snapshot takes, by what its stream already holds: nothing where the same snapshot
/// is there, its record where none is.
pub fn plan_persist(snapshot: &InstructionSnapshot, existing: &Option<InstructionSnapshot>) -> (result: Result<
    Option<SnapshotRecord>,
    RuntimeError,
>)
    ensures
        if !sound(snapshot@) {
            is_config_error(result, verification_text())
        } else {
            match *existing {
                Some(found) => if found@ == snapshot@ {
                    result matches Ok(None)
                } else {
                    is_config_error(result, verification_text())
                },
                None => result matches Ok(Some(record)) && keeps(record, snapshot@),
            }
        },
{
    snapshot.validate()?;
    match existing {
        Some(found) => if same_snapshot(found, snapshot) {
            Ok(None)
        } else {
            snapshot_verification_error()
        },
        None => {
            let stream_id = snapshot_stream(snapshot.id())?;
            let correlation_id = stream_id.clone();
            Ok(
                Some(
                    SnapshotRecord {
                        event: SnapshotEvent {
                            event_version: 1,
                            system: true,
                            event_type: "instruction.snapshot.v1".to_owned(),
                        },
                        stream_id,
                        expected_stream_version: 0,
                        actor_id: "instruction-snapshot-store".to_owned(),
                        correlation_id,
                    },
                ),
            )
        },
    }
}

/// The end of keeping a snapshot. A lost race counts as success only where the stream, read again,
/// holds the same snapshot.
pub fn settle_append(
    snapshot: &InstructionSnapshot,
    appended: Result<(), StoreError>,
    reread: &Option<InstructionSnapshot>,
) -> (result: Result<(), RuntimeError>)
    ensures
        match appended {
            Ok(_) => result is Ok,
            Err(error) => answers(
                result,
                if *reread matches Some(found) && found@ == snapshot@ {
                    Verdict::Accept
                } else {
                    Verdict::Forward(RuntimeError::Store(error))
                },
            ),
        },
{
    match appended {
        Ok(()) => Ok(()),
        Err(error) => {
            if let Some(found) = reread {
                if same_snapshot(found, snapshot) {
                    return Ok(());
                }
            }
            Err(RuntimeError::Store(error))
        },
    }
}

/// What was kept is read back: the record of a snapshot is the one event that its stream may hold,
/// and the snapshot is accepted from it under its identity and no other.
pub proof fn kept_snapshot_is_read_back(record: SnapshotRecord, snapshot: SnapshotView, id: Seq<char>)
    requires
        sound(snapshot),
        keeps(record, snapshot),
    ensures
        snapshot_shaped(record.event),
        is_snapshot_id(snapshot.id),
        acceptable(id, snapshot) <==> id == snapshot.id,
{
}

/// A snapshot is kept under its own identity, so two snapshots are kept in two streams, and only a new
/// stream takes one.
pub proof fn snapshots_are_kept_under_their_identity(
    first: SnapshotRecord,
    second: SnapshotRecord,
    one: SnapshotView,
    other: SnapshotView,
)
    requires
        keeps(first, one),
        keeps(second, other),
    ensures
        one.id.is_suffix_of(first.stream_id@),
        one.id != other.id ==> first.stream_id@ != second.stream_id@,
        first.expected_stream_version == 0,
        first.correlation_id@ == first.stream_id@,
        first.event.event_version == 1 && first.event.system && first.event.event_type@ == "instruction.snapshot.v1"@,
{
    let mark = "instruction-snapshot:"@;
    if first.stream_id@ == second.stream_id@ {
        assert(first.stream_id@.skip(mark.len() as int) == one.id);
        assert(second.stream_id@.skip(mark.len() as int) == other.id);
    }
}

/// A stored snapshot is accepted only under the identity that was asked for, and only where it is sound.
pub proof fn stored_snapshots_are_the_asked_ones(id: Seq<char>, snapshot: SnapshotView)
    ensures
        acceptable(id, snapshot) <==> snapshot.id == id && sound(snapshot),
{
}

} // verus!
