use haven_react::media::{align_media_inputs, attachment_from_content_part, media_placeholder};
use haven_react::types::{CanonicalMessage, CanonicalRole, ContentPart};

fn image(data: &str) -> ContentPart {
    ContentPart::Image { media_type: "image/png".into(), data: data.into() }
}

fn user(content: Vec<ContentPart>) -> CanonicalMessage {
    CanonicalMessage { role: CanonicalRole::User, content, tool_call_id: None }
}

#[test]
fn media_parts_take_the_inputs_of_their_injection_in_order() {
    let messages = vec![
        user(vec![ContentPart::Text("hi".into())]),
        user(vec![image("a"), ContentPart::Text("caption".into()), image("b")]),
        user(vec![
            ContentPart::Audio { media_type: "audio/wav".into(), data: "c".into() },
        ]),
    ];
    let slots = align_media_inputs(&[2, 1], &messages);
    assert_eq!(slots.len(), 3);
    assert_eq!(slots[0], vec![None]);
    assert_eq!(slots[1], vec![Some((0, 0)), None, Some((0, 1))]);
    assert_eq!(slots[2], vec![Some((1, 0))]);
}

#[test]
fn media_without_a_durable_input_gets_no_slot() {
    let messages = vec![user(vec![image("a"), image("b")]), user(vec![image("c")])];
    let slots = align_media_inputs(&[1], &messages);
    assert_eq!(slots[0], vec![Some((0, 0)), None]);
    assert_eq!(slots[1], vec![None]);
}

#[test]
fn raw_media_reads_back_as_an_attachment() {
    let a = attachment_from_content_part(&image("QUJD")).unwrap();
    assert_eq!(a.media_type, "image/png");
    assert_eq!(a.data, "QUJD");
    assert!(a.filename.is_none());
    assert!(a.path.is_none());
    assert!(attachment_from_content_part(&ContentPart::Text("x".into())).is_none());
}

#[test]
fn unsupported_media_is_replaced_by_a_text_placeholder() {
    match media_placeholder(&image("a")) {
        ContentPart::Text(t) => assert!(t.contains("图片")),
        _ => panic!("expected text"),
    }
    let audio = ContentPart::Audio { media_type: "audio/wav".into(), data: "x".into() };
    match media_placeholder(&audio) {
        ContentPart::Text(t) => assert!(t.contains("音频")),
        _ => panic!("expected text"),
    }
}
