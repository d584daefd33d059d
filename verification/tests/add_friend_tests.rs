use im_client::add_friend::{AddFriend, AddFriendAction, AddFriendMsg, AddFriendView, QueryState};
use im_client::model::User;

fn user(id: &str) -> User {
    User { id: id.to_string() }
}

#[test]
fn search_then_results_then_cleanup() {
    let mut panel = AddFriend::create();
    assert!(matches!(panel.view(), AddFriendView::NoResult(t) if t == "没有搜索结果"));

    let (render, action) = panel.update(&"me".to_string(), AddFriendMsg::SearchFriend("an".to_string()));
    assert!(render);
    assert!(panel.is_searching);
    match action {
        Some(AddFriendAction::Search { pattern, user_id }) => {
            assert_eq!(pattern, "an");
            assert_eq!(user_id, "me");
        }
        other => panic!("unexpected {:?}", other),
    }

    let (render, action) = panel.update(
        &"me".to_string(),
        AddFriendMsg::QueryFriends(QueryState::Success(vec![user("u1"), user("u2")])),
    );
    assert!(render && action.is_none());
    match panel.view() {
        AddFriendView::Users(ids) => assert_eq!(ids, vec!["u1".to_string(), "u2".to_string()]),
        other => panic!("unexpected {:?}", other),
    }

    let (render, action) = panel.update(&"me".to_string(), AddFriendMsg::CleanupSearchResult);
    assert!(render && action.is_none());
    assert!(!panel.is_searching);
    assert!(panel.result.is_empty());
    assert!(matches!(panel.view(), AddFriendView::NoResult(_)));
}

#[test]
fn failed_or_pending_query_changes_nothing() {
    let mut panel = AddFriend::create();
    panel.update(&"me".to_string(), AddFriendMsg::QueryFriends(QueryState::Success(vec![user("x")])));
    let (render, action) = panel.update(&"me".to_string(), AddFriendMsg::QueryFriends(QueryState::Failure));
    assert!(!render && action.is_none());
    let (render, action) = panel.update(&"me".to_string(), AddFriendMsg::QueryFriends(QueryState::Querying));
    assert!(!render && action.is_none());
    assert_eq!(panel.result.len(), 1);
}

#[test]
fn cancel_closes_with_false() {
    let mut panel = AddFriend::create();
    let (render, action) = panel.update(&"me".to_string(), AddFriendMsg::Cancel(true));
    assert!(!render);
    assert!(matches!(action, Some(AddFriendAction::EmitPlusClick(false))));
}
