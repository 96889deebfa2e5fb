use colossus_runtime::config::Platform;
use colossus_runtime::attachments::{append_text_attachment, prompt_with_text_attachment_bytes, Attachment};
use colossus_runtime::error::RuntimeError;

fn attachment(path: &str, bytes: &[u8]) -> Attachment {
    Attachment { path: path.into(), bytes: bytes.to_vec() }
}

#[test]
fn rendering_uses_only_the_display_name_and_bounded_utf8_content() {
    let mut rendered = "Inspect this".to_owned();
    append_text_attachment(Platform::Linux, &mut rendered, "/private/work/review.md", b"# Review\nready", 1_048_576)
        .expect("render attachment");
    assert!(rendered.contains("[Attached file: review.md]"));
    assert!(rendered.contains("# Review\nready"));
    assert!(!rendered.contains("/private/work"));
    assert!(append_text_attachment(
        Platform::Linux,
        &mut String::new(),
        "binary.bin",
        &[0xff, 0xfe],
        1_048_576,
    ).is_err());
    assert!(append_text_attachment(
        Platform::Linux,
        &mut String::new(),
        "large.txt",
        &vec![b'x'; 1_048_576],
        1_048_576,
    ).is_err());
}

#[test]
fn attachments_are_rendered_exactly() {
    let mut rendered = "p".to_owned();
    append_text_attachment(
        Platform::Linux,
        &mut rendered,
        "a/b.txt",
        "ä".as_bytes(),
        1_000,
    ).expect("render attachment");
    assert_eq!(rendered, "p\n\n[Attached file: b.txt]\nä\n[End attached file]");
}

#[test]
fn the_exact_bound_is_accepted_and_one_more_byte_is_not() {
    let mut whole = String::new();
    append_text_attachment(Platform::Linux, &mut whole, "f", b"xyz", 1_000).expect("unbounded");
    let bound = whole.len();
    let mut exact = String::new();
    assert!(append_text_attachment(Platform::Linux, &mut exact, "f", b"xyz", bound).is_ok());
    let mut over = "kept".to_owned();
    let error = append_text_attachment(
        Platform::Linux,
        &mut over,
        "f",
        b"xyz",
        bound,
    ).expect_err("one prompt too many");
    assert_eq!(error.shown(), "configuration error: combined prompt and attachments exceed 1 MiB");
    assert_eq!(over, "kept", "a refused attachment leaves the prompt as it was");
}

#[test]
fn attachments_need_a_name() {
    for path in ["/", "..", "a/.."] {
        let error = append_text_attachment(
            Platform::Linux,
            &mut String::new(),
            path,
            b"x",
            1_000,
        ).expect_err("no name");
        assert!(matches!(error, RuntimeError::Config(text) if text == "attachment name is invalid"));
    }
}

#[test]
fn prompts_take_sixteen_attachments() {
    let sixteen: Vec<Attachment> = (0..16).map(|index| attachment(&format!("{index}.txt"), b"x")).collect();
    let rendered = prompt_with_text_attachment_bytes(Platform::Linux, "prompt", &sixteen).expect("sixteen");
    assert!(rendered.starts_with("prompt\n\n[Attached file: 0.txt]"));
    assert!(rendered.contains("[Attached file: 15.txt]"));
    let seventeen: Vec<Attachment> = (0..17).map(|index| attachment(&format!("{index}.txt"), b"x")).collect();
    let error = prompt_with_text_attachment_bytes(Platform::Linux, "prompt", &seventeen).expect_err("seventeen");
    assert_eq!(error.shown(), "configuration error: at most 16 attachments may be supplied");
}

#[test]
fn rendered_prompts_keep_their_bound() {
    let long = "x".repeat(1_048_577);
    assert!(prompt_with_text_attachment_bytes(Platform::Linux, &long, &Vec::new()).is_err());
    let full = "x".repeat(1_048_576);
    assert_eq!(prompt_with_text_attachment_bytes(Platform::Linux, &full, &Vec::new()).expect("full").len(), 1_048_576);
    assert!(prompt_with_text_attachment_bytes(Platform::Linux, &full, &vec![attachment("a", b"")]).is_err());
    let error = prompt_with_text_attachment_bytes(
        Platform::Linux,
        "p",
        &vec![attachment("a", &[0xff])],
    ).expect_err("binary");
    assert_eq!(error.shown(), "configuration error: CLI attachments must contain UTF-8 text");
}
