//! Users, friends, messages and groups.

use vstd::prelude::*;

verus! {

/// A user of the service, known here by id.
#[derive(Clone, Debug, Default)]
pub struct User {
    pub id: String,
}

/// A friend of the logged-in user.
#[derive(Clone, Debug, Default)]
pub struct Friend {
    pub friend_id: String,
    pub name: String,
    pub avatar: String,
    pub address: Option<String>,
    /// The greeting the friend wrote with the request, if any.
    pub hello: Option<String>,
}

impl Friend {
    /// A field-by-field copy.
    pub fn copy(&self) -> (r: Friend)
        ensures
            r == *self,
    {
        Friend {
            friend_id: self.friend_id.clone(),
            name: self.name.clone(),
            avatar: self.avatar.clone(),
            address: copy_text(&self.address),
            hello: copy_text(&self.hello),
        }
    }
}

/// A copy of an optional text.
pub fn copy_text(t: &Option<String>) -> (r: Option<String>)
    ensures
        r == *t,
{
    match t {
        Some(s) => Some(s.clone()),
        None => None,
    }
}

/// The kind of a message's content.
#[derive(Clone, Copy, Debug, PartialEq, Eq, Structural)]
pub enum ContentType {
    /// No content kind chosen yet.
    Default,
    Text,
}

impl Default for ContentType {
    fn default() -> (t: Self)
        ensures
            t == ContentType::Default,
    {
        ContentType::Default
    }
}

/// A one-to-one chat message.
#[derive(Clone, Debug)]
pub struct Message {
    pub id: i64,
    pub seq: i64,
    pub local_id: String,
    pub server_id: String,
    pub send_id: String,
    pub friend_id: String,
    pub content_type: ContentType,
    pub content: String,
    pub create_time: i64,
    pub send_time: i64,
    pub is_read: bool,
    pub is_self: bool,
    pub is_success: bool,
    pub file_content: String,
}

impl Message {
    /// `m` is the empty message: no ids, no text, no times, nothing read or sent.
    pub open spec fn is_blank(m: Message) -> bool {
        &&& m.id == 0
        &&& m.seq == 0
        &&& m.local_id@ == Seq::<char>::empty()
        &&& m.server_id@ == Seq::<char>::empty()
        &&& m.send_id@ == Seq::<char>::empty()
        &&& m.friend_id@ == Seq::<char>::empty()
        &&& m.content_type == ContentType::Default
        &&& m.content@ == Seq::<char>::empty()
        &&& m.create_time == 0
        &&& m.send_time == 0
        &&& !m.is_read
        &&& !m.is_self
        &&& !m.is_success
        &&& m.file_content@ == Seq::<char>::empty()
    }
}

impl Default for Message {
    fn default() -> (m: Self)
        ensures
            Message::is_blank(m),
    {
        Message {
            id: 0,
            seq: 0,
            local_id: String::new(),
            server_id: String::new(),
            send_id: String::new(),
            friend_id: String::new(),
            content_type: ContentType::Default,
            content: String::new(),
            create_time: 0,
            send_time: 0,
            is_read: false,
            is_self: false,
            is_success: false,
            file_content: String::new(),
        }
    }
}

/// Which panel the home page shows.
#[derive(Clone, Copy, Debug, PartialEq, Eq, Structural)]
pub enum ComponentType {
    Messages,
    Contacts,
    Setting,
}

/// What the right-hand side is about to create a conversation for.
#[derive(Clone, Copy, Debug, PartialEq, Eq, Structural)]
pub enum RightContentType {
    Default,
    Friend,
    Group,
}

/// The conversation selected on the home page, by id; empty when none is.
#[derive(Clone, Debug)]
pub struct CurrentItem {
    pub item_id: String,
}

/// The unread counts kept in the browser's storage.
#[derive(Clone, Copy, Debug, PartialEq, Eq, Structural)]
pub struct UnreadCount {
    pub msg_count: usize,
    pub contacts_count: usize,
}

/// A friendship request as received.
#[derive(Clone, Debug)]
pub struct FriendShip {
    pub id: String,
}

/// Which side of a friendship request the friendship panel shows.
#[derive(Clone, Copy, Debug, PartialEq, Eq, Structural)]
pub enum FriendShipStateType {
    Req,
    Res,
}

/// What kind of conversation partner an item is.
#[derive(Clone, Copy, Debug, PartialEq, Eq, Structural)]
pub enum ItemType {
    Friend,
    Group,
}

/// What the contact and conversation lists read of an item.
pub trait ItemInfo {
    fn name(&self) -> String;

    fn id(&self) -> String;

    fn get_type(&self) -> ItemType;

    fn avatar(&self) -> String;
}

/// A chat group.
#[derive(Clone, Debug, Default)]
pub struct Group {
    pub id: String,
    pub name: String,
    pub avatar: String,
    pub members_id: Vec<String>,
    pub create_time: i64,
    pub publish_msg: String,
}

/// A request to create a group with the given members.
#[derive(Clone, Debug, Default)]
pub struct GroupRequest {
    pub group_name: String,
    pub members_id: Vec<String>,
}

/// Group member information.
#[derive(Clone, Debug, Default)]
pub struct GroupMember {
    pub id: i64,
    pub user_id: String,
    pub group_id: String,
    pub name: String,
    pub group_name: Option<String>,
    pub avatar: String,
    pub region: Option<String>,
}

impl ItemInfo for Group {
    fn name(&self) -> (r: String)
        ensures
            r == self.name,
    {
        self.name.clone()
    }

    fn id(&self) -> (r: String)
        ensures
            r == self.id,
    {
        self.id.clone()
    }

    fn get_type(&self) -> (r: ItemType)
        ensures
            r == ItemType::Group,
    {
        ItemType::Group
    }

    fn avatar(&self) -> (r: String)
        ensures
            r == self.avatar,
    {
        self.avatar.clone()
    }
}

/// `member` is the group member made of `friend`: no id yet, no group yet,
/// the friend's id, name and avatar, and the friend's address as region.
pub open spec fn member_from_friend(member: GroupMember, friend: Friend) -> bool {
    &&& member.id == 0
    &&& member.user_id == friend.friend_id
    &&& member.group_id@ == Seq::<char>::empty()
    &&& member.name == friend.name
    &&& member.group_name is None
    &&& member.avatar == friend.avatar
    &&& member.region == friend.address
}

impl From<Friend> for GroupMember {
    fn from(value: Friend) -> (member: Self)
        ensures
            member_from_friend(member, value),
    {
        GroupMember {
            id: 0,
            user_id: value.friend_id,
            group_id: String::new(),
            name: value.name,
            group_name: None,
            avatar: value.avatar,
            region: value.address,
        }
    }
}

impl vstd::std_specs::convert::FromSpecImpl<Friend> for GroupMember {
    /// The empty group id is known by its view only, so no single value is promised here;
    /// `member_from_friend` states what `from` gives.
    open spec fn obeys_from_spec() -> bool {
        false
    }

    open spec fn from_spec(v: Friend) -> GroupMember {
        choose|m: GroupMember| member_from_friend(m, v)
    }
}

/// A member made of a friend is that friend, in no group yet and without an id of its own.
pub proof fn law_member_is_the_friend(member: GroupMember, friend: Friend)
    requires
        member_from_friend(member, friend),
    ensures
        member.user_id == friend.friend_id,
        member.name == friend.name,
        member.avatar == friend.avatar,
        member.region == friend.address,
        member.id == 0,
        member.group_id@.len() == 0,
        member.group_name is None,
{
}

} // verus!
