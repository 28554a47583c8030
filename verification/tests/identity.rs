use haven_react::identity::IdentityMap;

#[test]
fn ensure_reuses_same_id_for_block() {
    let mut map = IdentityMap::new();
    let a = map.ensure_msg_id("ses-1", 1, 7, "thought");
    let b = map.ensure_msg_id("ses-1", 1, 7, "thought");
    assert_eq!(a, b);
    assert!(a.starts_with("step-"));
}

#[test]
fn reasoning_uses_msg_prefix() {
    let mut map = IdentityMap::new();
    let id = map.ensure_msg_id("ses-1", 1, 7, "reasoning");
    assert!(id.starts_with("msg-"));
}

#[test]
fn clear_for_session_drops_only_that_session() {
    let mut map = IdentityMap::new();
    let keep = map.ensure_msg_id("ses-keep", 1, 1, "thought");
    let _drop = map.ensure_msg_id("ses-drop", 1, 1, "thought");
    map.clear_for_session("ses-drop");
    assert_eq!(
        map.peek_msg_id("ses-keep", 1, 1, "thought").as_deref(),
        Some(keep.as_str())
    );
    assert!(map.peek_msg_id("ses-drop", 1, 1, "thought").is_none());
}

#[test]
fn block_msg_id_falls_back_to_fresh_prefix() {
    let mut map = IdentityMap::new();
    let id = map.block_msg_id("ses-1", 9, 1, "thought");
    assert!(id.starts_with("step-"));
    assert!(map.peek_msg_id("ses-1", 9, 1, "thought").is_none());
}

#[test]
fn distinct_blocks_get_distinct_seeded_ids() {
    let mut map = IdentityMap::with_seed("proc1".to_string());
    let a = map.ensure_msg_id("ses-1", 1, 1, "thought");
    let b = map.ensure_msg_id("ses-1", 2, 1, "thought");
    let c = map.ensure_msg_id("ses-1", 1, 2, "thought");
    assert_eq!(a, "step-proc1-0");
    assert_eq!(b, "step-proc1-1");
    assert_eq!(c, "step-proc1-2");
    assert_eq!(map.block_msg_id("ses-1", 2, 1, "thought"), b);
}
