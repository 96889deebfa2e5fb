use colossus_runtime::composition::PackEvidence;
use colossus_runtime::config::{AuditExporterConfig, Platform};
use colossus_runtime::error::RuntimeError;
use colossus_runtime::opening::{
    activate_packs, audit_export, begin_opening, continue_opening, known_capabilities, step_failure, tool_executables,
    AuditExport, ListedPack, OpeningAction, OpeningStep,
};

fn trace(recovery_mode: bool) -> Vec<OpeningStep> {
    let mut steps = Vec::new();
    let mut action = begin_opening();
    loop {
        match action {
            OpeningAction::Perform(step) => {
                steps.push(step);
                action = continue_opening(step, Ok(()), recovery_mode);
            }
            OpeningAction::Opened => return steps,
            OpeningAction::Failed(_) => unreachable!("no step failed"),
        }
    }
}

#[test]
fn openings_perform_their_steps_in_order() {
    let steps = trace(false);
    assert_eq!(steps.len(), 30);
    assert_eq!(steps[0], OpeningStep::ValidateStorage);
    assert_eq!(steps[29], OpeningStep::ConfirmWorkspace);
    let place = |step: OpeningStep| steps.iter().position(|item| *item == step).expect("performed");
    assert!(place(OpeningStep::AcquireWorkspace) < place(OpeningStep::OpenStorage));
    assert!(place(OpeningStep::VerifyPacks) < place(OpeningStep::CompilePacks));
    assert!(place(OpeningStep::ComposePolicy) < place(OpeningStep::DrawKeys));
}

#[test]
fn recovery_mode_settles_nothing() {
    let steps = trace(true);
    assert_eq!(steps.len(), 26);
    for step in [
        OpeningStep::CatchUpProjections,
        OpeningStep::RecoverEffects,
        OpeningStep::RecoverResearch,
        OpeningStep::RecoverWorkflows,
    ] {
        assert!(!steps.contains(&step));
    }
}

#[test]
fn a_failed_step_ends_the_opening() {
    let error = step_failure(OpeningStep::LoadCertificates, "bad PEM");
    assert_eq!(error.shown(), "configuration error: network.caBundlePath is invalid: bad PEM");
    assert!(matches!(
        continue_opening(OpeningStep::LoadCertificates, Err(error), false),
        OpeningAction::Failed(RuntimeError::Config(_))
    ));
    assert_eq!(
        step_failure(OpeningStep::CheckHome, "replaced").shown(),
        "configuration error: the explicit Colossus home is unsafe: replaced"
    );
    assert_eq!(
        step_failure(OpeningStep::DrawKeys, "none").shown(),
        "configuration error: operating-system randomness is unavailable"
    );
    assert!(matches!(step_failure(OpeningStep::ResolveWorkspace, "gone"), RuntimeError::Io(text) if text == "gone"));
}

fn evidence(digest: &str) -> PackEvidence {
    PackEvidence { manifest_sha256: digest.into(), trust_key_id: Some("key".into()) }
}

fn pack(name: &str, enabled: bool, digest: &str) -> ListedPack {
    ListedPack {
        name: name.into(),
        version: "1.0.0".into(),
        installed_path: format!("/packs/{name}"),
        enabled,
        installed: evidence("a"),
        verified: Ok(evidence(digest)),
        skills: vec!["skills/one".into()],
    }
}

#[test]
fn enabled_packs_are_verified_again() {
    let active = activate_packs(
        Platform::Linux,
        &vec![pack("off", false, "b"), pack("on", true, "a")],
    ).expect("active");
    assert_eq!(active.packs, [1]);
    assert_eq!(active.skill_roots.len(), 1);
    assert_eq!(active.skill_roots[0].path, "/packs/on/skills/one");
    assert_eq!(active.skill_roots[0].label, "pack:on@1.0.0");
    assert_eq!(
        activate_packs(Platform::Linux, &vec![pack("on", true, "b")]).expect_err("changed").shown(),
        "configuration error: enabled pack on failed canonical re-verification"
    );
    let mut broken = pack("on", true, "a");
    broken.verified = Err(RuntimeError::Bundle("unreadable".into()));
    assert!(matches!(activate_packs(Platform::Linux, &vec![broken]), Err(RuntimeError::Bundle(_))));
}

#[test]
fn composition_takes_paths_from_the_workspace() {
    assert_eq!(known_capabilities(&vec!["a".into()], "b"), ["a", "b"]);
    let directory = AuditExporterConfig::Directory { path: "audit".into() };
    assert!(matches!(audit_export(
        Platform::Linux,
        &directory,
        "/w",
    ), AuditExport::Directory(path) if path == "/w/audit"));
    assert!(matches!(audit_export(Platform::Linux, &AuditExporterConfig::Disabled, "/w"), AuditExport::Nowhere));
    let missing = || vec![Ok("/bin/a".to_owned()), Err(RuntimeError::Io("gone".into()))];
    let paths = vec!["a".to_owned(), "b".to_owned()];
    assert_eq!(tool_executables("oci", &paths, &missing()).expect("image"), ["a", "b"]);
    assert!(matches!(tool_executables("native", &paths, &missing()), Err(RuntimeError::Io(_))));
    let found = vec![Ok("/bin/a".to_owned()), Ok("/bin/b".to_owned())];
    assert_eq!(tool_executables("native", &paths, &found).expect("found"), ["/bin/a", "/bin/b"]);
}
