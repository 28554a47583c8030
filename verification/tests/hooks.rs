use haven_react::hooks::{
    attachment_to_content_part, canonical_has_image, compaction_due, gated_tool_action,
    interval_infer_due, resumed_tool_action, BeforeToolAction, ConfirmationResult, RiskLevel,
};
use haven_react::types::{CanonicalMessage, ContentPart, MessageAttachment};

#[test]
fn recorded_confirmation_runs_and_rejection_blocks() {
    assert!(matches!(
        resumed_tool_action("shell", true),
        BeforeToolAction::Proceed { confirmed: Some(true) }
    ));
    match resumed_tool_action("shell", false) {
        BeforeToolAction::Block { error } => {
            assert!(error.starts_with("The user REJECTED the operation 'shell'"));
            assert!(error.contains("Do NOT retry it"));
        }
        _ => panic!("expected a block"),
    }
}

#[test]
fn policy_verdicts_map_to_gate_actions() {
    assert!(matches!(
        gated_tool_action("read", ConfirmationResult::AutoApproved),
        BeforeToolAction::Proceed { confirmed: None }
    ));
    match gated_tool_action("rm", ConfirmationResult::Blocked { reason: "destructive".into() }) {
        BeforeToolAction::Block { error } => assert_eq!(
            error,
            "operation 'rm' is blocked by the security policy (destructive). Do NOT retry it — ask the user what to do instead or choose a different approach."
        ),
        _ => panic!("expected a block"),
    }
    assert!(matches!(
        gated_tool_action("shell", ConfirmationResult::RequiresConfirmation { risk_level: RiskLevel::High }),
        BeforeToolAction::NeedConfirm { risk_level: RiskLevel::High }
    ));
}

#[test]
fn interval_inference_runs_on_multiples_after_the_first_step() {
    assert!(!interval_infer_due(0, 3));
    assert!(!interval_infer_due(2, 3));
    assert!(interval_infer_due(3, 3));
    assert!(interval_infer_due(6, 3));
    assert!(!interval_infer_due(6, 0));
}

#[test]
fn compaction_needs_a_long_transcript_over_the_threshold() {
    assert!(!compaction_due(3, 10_000, 100));
    assert!(!compaction_due(4, 100, 100));
    assert!(compaction_due(4, 101, 100));
}

fn text_msg(text: &str) -> CanonicalMessage {
    CanonicalMessage::user_text(text.to_string())
}

fn image_msg() -> CanonicalMessage {
    CanonicalMessage::tool(
        vec![ContentPart::Image { media_type: "image/png".into(), data: "aGVsbG8=".into() }],
        None,
    )
}

#[test]
fn image_parts_are_detected_anywhere() {
    assert!(!canonical_has_image(&[text_msg("hi")]));
    assert!(!canonical_has_image(&[]));
    assert!(canonical_has_image(&[text_msg("hi"), image_msg()]));
}

#[test]
fn attachments_become_vision_parts_or_file_references() {
    let image = MessageAttachment {
        media_type: "image/jpeg".into(),
        data: "AAAA".into(),
        filename: Some("a.jpg".into()),
        path: None,
    };
    assert!(matches!(
        attachment_to_content_part(&image),
        ContentPart::Image { media_type, data } if media_type == "image/jpeg" && data == "AAAA"
    ));
    let file = MessageAttachment {
        media_type: "application/pdf".into(),
        data: String::new(),
        filename: Some("report.pdf".into()),
        path: Some("/tmp/report.pdf".into()),
    };
    assert!(matches!(
        attachment_to_content_part(&file),
        ContentPart::Text(t) if t == "[附件: report.pdf，路径: /tmp/report.pdf]"
    ));
    let anonymous = MessageAttachment {
        media_type: "text/plain".into(),
        data: String::new(),
        filename: None,
        path: None,
    };
    assert!(matches!(
        attachment_to_content_part(&anonymous),
        ContentPart::Text(t) if t == "[附件: attachment]"
    ));
}
