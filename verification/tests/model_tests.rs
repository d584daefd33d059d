use im_client::model::{Friend, Group, GroupMember, GroupRequest, ItemInfo, ItemType};

#[test]
fn group_member_from_friend() {
    let f = Friend {
        friend_id: "f7".to_string(),
        name: "Bo".to_string(),
        avatar: "b.png".to_string(),
        address: Some("Oslo".to_string()),
        hello: None,
    };
    let m = GroupMember::from(f);
    assert_eq!(m.id, 0);
    assert_eq!(m.user_id, "f7");
    assert_eq!(m.group_id, "");
    assert_eq!(m.name, "Bo");
    assert_eq!(m.group_name, None);
    assert_eq!(m.avatar, "b.png");
    assert_eq!(m.region.as_deref(), Some("Oslo"));
}

#[test]
fn group_item_info() {
    let g = Group {
        id: "g1".to_string(),
        name: "Team".to_string(),
        avatar: "t.png".to_string(),
        members_id: vec!["a".to_string()],
        create_time: 5,
        publish_msg: String::new(),
    };
    assert_eq!(g.name(), "Team");
    assert_eq!(ItemInfo::id(&g), "g1");
    assert_eq!(g.avatar(), "t.png");
    assert_eq!(g.get_type(), ItemType::Group);
}

#[test]
fn group_request_default() {
    let r = GroupRequest::default();
    assert!(r.group_name.is_empty());
    assert!(r.members_id.is_empty());
}
