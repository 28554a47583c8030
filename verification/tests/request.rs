use haven_react::engine::choose_agent_role;
use haven_react::hooks::canonical_has_image;
use haven_react::request::RequestContext;
use haven_react::sidecars::EndpointRole;
use haven_react::state::{GenerationCounter, ReActState};
use haven_react::types::{CanonicalMessage, CanonicalRole, ContentPart};

fn state(messages: Vec<CanonicalMessage>) -> ReActState {
    let mut generations = GenerationCounter::new();
    ReActState::new(Vec::new(), messages, Vec::new(), &mut generations)
}

fn text_msg(role: CanonicalRole, text: &str) -> CanonicalMessage {
    CanonicalMessage { role, content: vec![ContentPart::Text(text.into())], tool_call_id: None }
}

fn image_msg(role: CanonicalRole) -> CanonicalMessage {
    CanonicalMessage {
        role,
        content: vec![ContentPart::Image { media_type: "image/png".into(), data: "AAAA".into() }],
        tool_call_id: None,
    }
}

#[test]
fn request_context_does_not_mutate_durable_canonical() {
    let durable = vec![CanonicalMessage::user_text("hello".into())];
    let run = state(vec![CanonicalMessage::user_text("hello".into())]);
    let context = RequestContext::from_state(&run, None, &[]);
    assert_eq!(context.messages().len(), durable.len());
    assert_eq!(context.messages()[0].content.len(), durable[0].content.len());
}

#[test]
fn retry_nudge_is_applied_to_the_request_copy_only() {
    let durable = || {
        vec![
            CanonicalMessage::assistant(Vec::new()),
            CanonicalMessage::tool(vec![ContentPart::Text("failed".into())], Some("call-1".to_string())),
        ]
    };
    let mut run = state(durable());
    run.stage_retry_nudge("call-1".into(), "retry safely".into());
    let nudge = run.take_retry_nudge();
    let context = RequestContext::from_state(&run, nudge.as_ref(), &[]);
    assert_eq!(run.canonical().len(), durable().len());
    assert!(matches!(
        run.canonical()[1].content.as_slice(),
        [ContentPart::Text(text)] if text == "failed"
    ));
    assert!(context.messages()[1]
        .content
        .iter()
        .any(|part| matches!(part, ContentPart::Text(text) if text.contains("retry safely"))));
}

#[test]
fn user_instruction_creates_a_fresh_snapshot_without_accumulation() {
    let base = RequestContext::from_state(&state(vec![CanonicalMessage::user_text("hello".into())]), None, &[]);
    let first = base.with_user_instruction("first".into());
    let second = first.with_user_instruction("second".into());
    assert_eq!(base.messages().len(), 1);
    assert_eq!(first.messages().len(), 2);
    assert_eq!(second.messages().len(), 3);
    assert!(first.messages()[1]
        .content
        .iter()
        .any(|part| matches!(part, ContentPart::Text(text) if text == "first")));
}

#[test]
fn request_media_parts_point_at_their_durable_inputs() {
    let run = state(vec![text_msg(CanonicalRole::User, "hi"), image_msg(CanonicalRole::User)]);
    let context = RequestContext::from_state(&run, None, &[1]);
    assert_eq!(context.media_slots()[0], vec![None]);
    assert_eq!(context.media_slots()[1], vec![Some((0, 0))]);
    let extended = context.with_user_instruction("continue".into());
    assert_eq!(extended.media_slots()[1], vec![Some((0, 0))]);
    assert_eq!(extended.media_slots()[2], vec![None]);
}

#[test]
fn mod_choose_agent_role_default_without_images() {
    let messages = [text_msg(CanonicalRole::System, "be concise"), text_msg(CanonicalRole::User, "hello")];
    let has_image = canonical_has_image(&messages);
    assert_eq!(choose_agent_role(has_image, EndpointRole::ImageModel), EndpointRole::DefaultModel);
}

#[test]
fn mod_choose_agent_role_default_when_image_model_unconfigured() {
    let messages = [image_msg(CanonicalRole::User)];
    let has_image = canonical_has_image(&messages);
    assert!(has_image);
    assert_eq!(choose_agent_role(has_image, EndpointRole::DefaultModel), EndpointRole::DefaultModel);
}

#[test]
fn mod_choose_agent_role_image_model_when_configured() {
    let messages = [image_msg(CanonicalRole::User)];
    let has_image = canonical_has_image(&messages);
    assert_eq!(choose_agent_role(has_image, EndpointRole::ImageModel), EndpointRole::ImageModel);
}

#[test]
fn mod_choose_agent_role_default_when_image_routing_disabled() {
    let messages = [image_msg(CanonicalRole::User)];
    let has_image = canonical_has_image(&messages);
    assert_eq!(choose_agent_role(has_image, EndpointRole::DefaultModel), EndpointRole::DefaultModel);
}
