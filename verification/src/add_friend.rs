//! The add-friend panel: searching users and listing the results.

use vstd::prelude::*;
use crate::model::User;

verus! {

/// Where a query stands.
#[derive(Clone, Debug)]
pub enum QueryState<T> {
    Querying,
    Success(T),
    Failure,
}

/// What happens on the add-friend panel.
#[derive(Debug)]
pub enum AddFriendMsg {
    /// Search users by this pattern.
    SearchFriend(String),
    /// Clear the search.
    CleanupSearchResult,
    /// A search answered.
    QueryFriends(QueryState<Vec<User>>),
    /// The panel is closed.
    Cancel(bool),
}

/// What the panel asks its surroundings to do.
#[derive(Debug)]
pub enum AddFriendAction {
    /// Search, on behalf of `user_id`, the users matching `pattern`; report
    /// `QueryFriends(Success(list))`, or `QueryFriends(Failure)` on an error.
    Search { pattern: String, user_id: String },
    /// Call the parent's plus-click callback with this value.
    EmitPlusClick(bool),
}

/// The state of the add-friend panel.
#[derive(Debug)]
pub struct AddFriend {
    /// The users found by the last search.
    pub result: Vec<User>,
    /// A search is under way or shown.
    pub is_searching: bool,
}

/// What the panel lists: a placeholder text, or the ids of the users found, in order.
#[derive(Clone, Debug)]
pub enum AddFriendView {
    NoResult(String),
    Users(Vec<String>),
}

/// The placeholder shown when nothing was found.
pub open spec fn no_result_text() -> Seq<char> {
    "没有搜索结果"@
}

impl AddFriend {
    /// The panel as it opens: nothing found, no search.
    pub fn create() -> (panel: Self)
        ensures
            panel.result@.len() == 0,
            !panel.is_searching,
    {
        AddFriend { result: Vec::new(), is_searching: false }
    }

    /// Takes `msg` on the panel of user `user_id`; returns whether to re-render and
    /// the action to take, if any.
    pub fn update(&mut self, user_id: &String, msg: AddFriendMsg) -> (res: (bool, Option<AddFriendAction>))
        ensures
            match msg {
                AddFriendMsg::SearchFriend(pattern) => {
                    &&& final(self).is_searching
                    &&& final(self).result == old(self).result
                    &&& res.0
                    &&& res.1 == Some(AddFriendAction::Search { pattern, user_id: *user_id })
                },
                AddFriendMsg::CleanupSearchResult => {
                    &&& !final(self).is_searching
                    &&& final(self).result@.len() == 0
                    &&& res.0
                    &&& res.1 is None
                },
                AddFriendMsg::QueryFriends(QueryState::Success(list)) => {
                    &&& final(self).result == list
                    &&& final(self).is_searching == old(self).is_searching
                    &&& res.0
                    &&& res.1 is None
                },
                AddFriendMsg::QueryFriends(_) => {
                    &&& *final(self) == *old(self)
                    &&& !res.0
                    &&& res.1 is None
                },
                AddFriendMsg::Cancel(_) => {
                    &&& *final(self) == *old(self)
                    &&& !res.0
                    &&& res.1 == Some(AddFriendAction::EmitPlusClick(false))
                },
            },
    {
        match msg {
            AddFriendMsg::SearchFriend(pattern) => {
                self.is_searching = true;
                (true, Some(AddFriendAction::Search { pattern, user_id: user_id.clone() }))
            },
            AddFriendMsg::CleanupSearchResult => {
                self.is_searching = false;
                self.result.clear();
                (true, None)
            },
            AddFriendMsg::QueryFriends(friends) => match friends {
                QueryState::Success(list) => {
                    self.result = list;
                    (true, None)
                },
                QueryState::Failure => (false, None),
                QueryState::Querying => (false, None),
            },
            AddFriendMsg::Cancel(_) => (false, Some(AddFriendAction::EmitPlusClick(false))),
        }
    }

    /// What the panel lists: the placeholder when nothing was found, else the users' ids in order.
    pub fn view(&self) -> (v: AddFriendView)
        ensures
            self.result@.len() == 0 ==> (v matches AddFriendView::NoResult(t) && t@ == no_result_text()),
            self.result@.len() > 0 ==> (v matches AddFriendView::Users(ids) && ids@.len() == self.result@.len()
                && forall|i: int| 0 <= i < ids@.len() ==> #[trigger] ids@[i] == self.result@[i].id),
    {
        if self.result.len() == 0 {
            return AddFriendView::NoResult("没有搜索结果".to_owned());
        }
        let mut ids: Vec<String> = Vec::new();
        for i in 0..self.result.len()
            invariant
                ids@.len() == i,
                forall|j: int| 0 <= j < i ==> #[trigger] ids@[j] == self.result@[j].id,
        {
            ids.push(self.result[i].id.clone());
        }
        AddFriendView::Users(ids)
    }
}

} // verus!
