use colossus_runtime::entries::Entry;
use colossus_runtime::error::{RuntimeError, StoreError};
use colossus_runtime::instruction_files::{
    accept_bytes, accept_home_bytes, accept_home_entry, accept_opened, inspect_entry, FileObject, OpenedFile, PathEntry,
};
use colossus_runtime::instruction_snapshots::{
    capture_layers_for_run, snapshot_stream, valid_snapshot_id, InstructionSnapshot, InstructionSourceKind,
    InstructionSourceSnapshot, MAX_AGENTS_FILE_BYTES,
};
use colossus_runtime::snapshot_store::{
    accept_stored, plan_persist, require_stored, same_snapshot, settle_append, stored_event, SnapshotEvent,
};

const PATH: &str = "/workspace/AGENTS.md";
const OBJECT: FileObject = FileObject { device: 1, inode: 2 };

fn present(length: u64) -> PathEntry {
    PathEntry::Present { symbolic_link: false, regular: true, length, object: OBJECT }
}

/// Reads an instruction file of the workspace whose contents stay as they are.
fn read(bytes: &[u8]) -> Result<Option<String>, RuntimeError> {
    let entry = present(bytes.len() as u64);
    let Some(object) = inspect_entry(PATH, &entry)? else {
        return Ok(None);
    };
    let opened = OpenedFile { regular: true, length: bytes.len() as u64, object: OBJECT };
    accept_opened(PATH, object, &opened)?;
    accept_bytes(PATH, object, &bytes.to_vec(), &opened, &entry).map(Some)
}

fn capture(workspace: &[u8], invocation: &str, mode: &str) -> Result<InstructionSnapshot, RuntimeError> {
    InstructionSnapshot::capture(None, read(workspace)?, invocation, mode)
}

fn captured(workspace: &[u8], invocation: &str, mode: &str) -> InstructionSnapshot {
    match capture(workspace, invocation, mode) {
        Ok(snapshot) => snapshot,
        Err(error) => panic!("{}", error.shown()),
    }
}

fn shown_error<T>(result: Result<T, RuntimeError>) -> String {
    match result {
        Ok(_) => panic!("a failure is expected"),
        Err(error) => error.shown(),
    }
}

#[test]
fn capture_orders_all_instruction_layers_with_hash_only_provenance() {
    let snapshot = match InstructionSnapshot::capture(
        Some("home rules".into()),
        Some("workspace rules".into()),
        "invocation rules",
        "immutable Plan Mode rules",
    ) {
        Ok(snapshot) => snapshot,
        Err(error) => panic!("{}", error.shown()),
    };
    let composed = snapshot.compose();
    let home_offset = composed.find("home rules").expect("home");
    let workspace_offset = composed.find("workspace rules").expect("workspace");
    let invocation_offset = composed.find("invocation rules").expect("invocation");
    let runtime_offset = composed.find("immutable Plan Mode rules").expect("runtime mode");
    assert!(
        home_offset < workspace_offset && workspace_offset < invocation_offset && invocation_offset < runtime_offset
    );
    assert_eq!(
        snapshot
            .provenance()
            .into_iter()
            .map(|item| (item.label, item.sha256.len()))
            .collect::<Vec<_>>(),
        vec![
            ("home AGENTS.md".to_owned(), 64),
            ("workspace AGENTS.md".to_owned(), 64),
            ("invocation instructions".to_owned(), 64),
            ("runtime mode instructions".to_owned(), 64),
        ]
    );
    let diagnostics = format!("{:?}", snapshot.automatic_source_diagnostics());
    assert!(diagnostics.contains("home AGENTS.md"));
    assert!(diagnostics.contains("workspace AGENTS.md"));
    assert!(!diagnostics.contains("home rules"));
    assert!(!diagnostics.contains("workspace rules"));
    assert!(!diagnostics.contains("invocation rules"));
    assert!(!diagnostics.contains("immutable Plan Mode rules"));
    let different_mode = match InstructionSnapshot::capture(
        Some("home rules".into()),
        Some("workspace rules".into()),
        "invocation rules",
        "different immutable mode",
    ) {
        Ok(snapshot) => snapshot,
        Err(error) => panic!("{}", error.shown()),
    };
    assert_ne!(
        snapshot.id(),
        different_mode.id(),
        "runtime-mode content must contribute to the durable snapshot identity"
    );
}

#[test]
fn capture_reloads_files_for_each_top_level_snapshot() {
    let first = captured(b"first rules", "run", "");
    let second = captured(b"second rules", "run", "");

    assert!(first.compose().contains("first rules"));
    assert!(!first.compose().contains("second rules"));
    assert!(second.compose().contains("second rules"));
    assert_ne!(first.id(), second.id());
}

#[test]
fn capture_rejects_oversized_and_non_utf8_files() {
    let oversized = vec![b'a'; MAX_AGENTS_FILE_BYTES + 1];
    assert!(shown_error(capture(&oversized, "run", "")).contains("byte limit"));
    assert!(shown_error(capture(&[0xff, 0xfe], "run", "")).contains("valid UTF-8"));
}

#[test]
fn capture_rejects_present_non_regular_agents_path() {
    let directory = PathEntry::Present { symbolic_link: false, regular: false, length: 0, object: OBJECT };
    assert!(shown_error(inspect_entry(PATH, &directory)).contains("must be a regular file"));
}

#[test]
fn capture_rejects_present_symlinked_agents_file() {
    let link = PathEntry::Present { symbolic_link: true, regular: true, length: 12, object: OBJECT };
    assert!(shown_error(inspect_entry(PATH, &link)).contains("must not be a symbolic link"));
}

#[test]
fn home_capture_rejects_a_replaced_bound_namespace() {
    let after = OpenedFile { regular: true, length: 14, object: OBJECT };
    let replaced = Err("the bound namespace was replaced".to_owned());
    assert!(
        shown_error(accept_home_bytes(PATH, 14, &b"original rules".to_vec(), &after, &replaced)).contains("unsafe")
    );
}

#[test]
fn durable_store_round_trips_exact_material_without_debug_disclosure() {
    let snapshot = captured(b"private repository rules", "caller rules", "immutable Goal Mode rules");
    assert!(!snapshot.described().contains("private repository rules"));
    assert!(!snapshot.described().contains("caller rules"));
    assert!(!snapshot.described().contains("immutable Goal Mode rules"));

    let record = match plan_persist(&snapshot, &None) {
        Ok(Some(record)) => record,
        _ => panic!("a new snapshot is kept"),
    };
    assert_eq!(record.stream_id, match snapshot_stream(snapshot.id()) {
        Ok(stream) => stream,
        Err(error) => panic!("{}", error.shown()),
    });
    assert_eq!(record.expected_stream_version, 0);
    assert!(matches!(stored_event(&vec![record.event]), Ok(true)));

    let again = captured(b"private repository rules", "caller rules", "immutable Goal Mode rules");
    assert!(matches!(plan_persist(&snapshot, &Some(again)), Ok(None)), "idempotent persist");
    let stored = captured(b"private repository rules", "caller rules", "immutable Goal Mode rules");
    let loaded = match accept_stored(snapshot.id(), Some(stored)).and_then(|found| require_stored(Some(found))) {
        Ok(loaded) => loaded,
        Err(error) => panic!("{}", error.shown()),
    };
    assert!(same_snapshot(&loaded, &snapshot));
}

#[test]
fn durable_runtime_mode_does_not_count_against_exact_agents_boundary() {
    let snapshot = match InstructionSnapshot::capture(
        Some("h".repeat(MAX_AGENTS_FILE_BYTES)),
        Some("w".repeat(MAX_AGENTS_FILE_BYTES)),
        "caller rules",
        "nonempty immutable runtime mode",
    ) {
        Ok(snapshot) => snapshot,
        Err(error) => panic!("{}", error.shown()),
    };
    assert!(snapshot.validate().is_ok());
    assert!(matches!(plan_persist(&snapshot, &None), Ok(Some(_))));
    assert_eq!(snapshot.runtime_mode(), "nonempty immutable runtime mode");
}

#[test]
fn delayed_goal_finalization_uses_the_run_start_file_snapshot() {
    let layers = match read(b"rules at run start")
        .and_then(|workspace| InstructionSnapshot::capture_layers(None, workspace, "goal run"))
    {
        Ok(layers) => layers,
        Err(error) => panic!("{}", error.shown()),
    };
    let prepared = layers.finalize("immutable Goal Mode goal-123");

    assert!(prepared.text.contains("rules at run start"));
    assert!(!prepared.text.contains("rules changed during goal creation"));
    assert!(prepared.text.ends_with("immutable Goal Mode goal-123"));
    assert!(
        prepared
            .snapshot
            .expect("user-facing snapshot")
            .compose()
            .ends_with("immutable Goal Mode goal-123")
    );
}

#[test]
fn trusted_diagnostic_capture_suppresses_only_automatic_agents_layers() {
    let layers = match capture_layers_for_run(
        Some("hostile home diagnostic sentinel".into()),
        Some("hostile workspace diagnostic sentinel".into()),
        "explicit offline probe",
        false,
    ) {
        Ok(layers) => layers,
        Err(error) => panic!("{}", error.shown()),
    };
    let prepared = layers.finalize("immutable Plan probe mode");

    assert!(!prepared.text.contains("hostile home diagnostic sentinel"));
    assert!(!prepared.text.contains("hostile workspace diagnostic sentinel"));
    assert!(prepared.text.contains("explicit offline probe"));
    assert!(prepared.text.ends_with("immutable Plan probe mode"));
}

#[test]
fn child_snapshot_identity_binds_catalog_and_exact_skill_selections() {
    let digests = vec![Entry { key: "colossus".to_owned(), value: "ab".repeat(32) }];
    let original = match InstructionSnapshot::capture_layers(None, None, "parent instructions") {
        Ok(layers) => layers.with_plugin_digests(digests).into_snapshot(""),
        Err(error) => panic!("{}", error.shown()),
    };
    let selected = original.with_plugin_selections(&vec!["colossus/coding".into()]);
    assert_ne!(original.id(), selected.id());
    assert_eq!(original.plugin_digests().len(), 1);
    assert_eq!(original.plugin_digests()[0].value, "ab".repeat(32));

    let id = selected.id().to_owned();
    let restored = match accept_stored(&id, Some(selected)) {
        Ok(restored) => restored,
        Err(error) => panic!("{}", error.shown()),
    };
    assert_eq!(restored.plugin_skill_ids(), &vec!["colossus/coding".to_owned()]);
    assert_eq!(restored.plugin_digests()[0].key, original.plugin_digests()[0].key);
    assert_eq!(restored.plugin_digests()[0].value, original.plugin_digests()[0].value);
}

#[test]
fn content_digests_are_sha256() {
    let source = InstructionSourceSnapshot::new(InstructionSourceKind::Invocation, "abc".into());
    assert_eq!(source.sha256, "ba7816bf8f01cfea414140de5dae2223b00361a396177a9cb410ff61f20015ad");
}

#[test]
fn descriptions_show_labels_and_digests() {
    let snapshot = captured(b"rules", "abc", "");
    let text = snapshot.described();
    assert!(text.starts_with(&format!(
        "InstructionSnapshot {{ version: 1, id: {:?}, sources: [(\"workspace AGENTS.md\", ",
        snapshot.id()
    )));
    assert!(text.contains("ba7816bf8f01cfea414140de5dae2223b00361a396177a9cb410ff61f20015ad"));
    assert!(text.ends_with("\")] }"));
}

#[test]
fn altered_snapshots_are_not_sound() {
    let mut altered = captured(b"rules", "run", "mode");
    altered.sources[0].contents = "other rules".into();
    assert!(altered.validate().is_err());
    let mut renumbered = captured(b"rules", "run", "mode");
    renumbered.version = 2;
    assert!(renumbered.validate().is_err());
    let mut reordered = captured(b"rules", "run", "mode");
    reordered.sources.swap(0, 1);
    assert!(reordered.validate().is_err());
    assert!(accept_stored("0".repeat(64).as_str(), Some(captured(b"rules", "run", "mode"))).is_err());
    assert!(accept_stored("0".repeat(64).as_str(), None).is_err());
    assert!(require_stored(None).is_err());
}

#[test]
fn snapshot_identifiers_are_digests() {
    assert!(valid_snapshot_id(captured(b"rules", "run", "").id()));
    assert!(!valid_snapshot_id("short"));
    assert!(!valid_snapshot_id(&"G".repeat(64)));
    assert!(snapshot_stream("../escape").is_err());
}

#[test]
fn base_text_and_mode_compose_the_whole() {
    let snapshot = captured(b"rules", "run", "mode");
    assert!(snapshot.compose_without_runtime_mode().contains("run"));
    assert!(!snapshot.compose_without_runtime_mode().contains("mode instructions"));
    let prepared = match InstructionSnapshot::capture_layers(None, None, "run") {
        Ok(layers) => layers.finalize("mode"),
        Err(error) => panic!("{}", error.shown()),
    };
    assert_eq!(prepared.complete_composed_base(&prepared.base_text), prepared.text);
}

#[test]
fn files_that_change_while_read_are_refused() {
    let moved = OpenedFile { regular: true, length: 5, object: FileObject { device: 1, inode: 3 } };
    assert!(accept_opened(PATH, OBJECT, &moved).is_err());
    let grown = OpenedFile { regular: true, length: 6, object: OBJECT };
    assert!(accept_bytes(PATH, OBJECT, &b"rules".to_vec(), &grown, &present(6)).is_err());
    let opened = OpenedFile { regular: true, length: 5, object: OBJECT };
    assert!(accept_bytes(PATH, OBJECT, &b"rules".to_vec(), &opened, &PathEntry::Missing).is_err());
    assert!(matches!(inspect_entry(PATH, &PathEntry::Missing), Ok(None)));
    assert!(shown_error(inspect_entry(PATH, &PathEntry::Unreadable("denied".into()))).contains("denied"));
}

#[test]
fn home_files_keep_their_bound() {
    assert!(accept_home_entry(PATH, 65_536).is_ok());
    assert!(shown_error(accept_home_entry(PATH, 65_537)).contains("exceeds the 65536 byte limit"));
    let after = OpenedFile { regular: true, length: 5, object: OBJECT };
    assert!(matches!(accept_home_bytes(PATH, 5, &b"rules".to_vec(), &after, &Ok(())), Ok(text) if text == "rules"));
    assert!(accept_home_bytes(PATH, 4, &b"rules".to_vec(), &after, &Ok(())).is_err());
}

#[test]
fn kept_snapshots_are_read_back_after_a_race() {
    let snapshot = captured(b"rules", "run", "mode");
    assert!(settle_append(&snapshot, Ok(()), &None).is_ok());
    let same = captured(b"rules", "run", "mode");
    assert!(settle_append(&snapshot, Err(StoreError::Other("raced".into())), &Some(same)).is_ok());
    let other = captured(b"other", "run", "mode");
    assert!(settle_append(&snapshot, Err(StoreError::Other("raced".into())), &Some(other)).is_err());
    assert!(settle_append(&snapshot, Err(StoreError::Other("offline".into())), &None).is_err());
    assert!(matches!(stored_event(&Vec::new()), Ok(false)));
    let foreign = SnapshotEvent { event_version: 1, system: false, event_type: "instruction.snapshot.v1".into() };
    assert!(stored_event(&vec![foreign]).is_err());
}
