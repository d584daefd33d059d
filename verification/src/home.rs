//! The home page: notification queue, friendship answers and greetings.

use vstd::prelude::*;
use crate::model::{
    ComponentType, ContentType, CurrentItem, Friend, FriendShip, FriendShipStateType, Group, Message,
    RightContentType, UnreadCount, User,
};
use crate::notification::{Notification, NotificationType};

verus! {

/// The greeting sent when a friendship request is accepted without one of its own.
pub const DEFAULT_HELLO_MESSAGE: &'static str = "I've accepted your friend request. Now let's chat!";

/// How many start-up loads the home page waits for before it is ready.
pub const WAIT_COUNT: usize = 2;

/// The state of the friendship panel: the request concerned, the friend concerned
/// and which side it shows.
#[derive(Clone, Debug)]
pub struct FriendShipState {
    pub ship: Option<FriendShip>,
    pub friend: Option<Friend>,
    pub state_type: FriendShipStateType,
}

/// What the right-hand side is about to open a conversation with.
#[derive(Clone, Debug)]
pub struct CreateConvState {
    pub friend: Option<Friend>,
    pub group: Option<Group>,
    pub type_: RightContentType,
}

/// What the home page keeps between messages.
#[derive(Clone, Debug)]
pub struct Home {
    /// The user whose home page this is.
    pub user: User,
    /// The logged-in user as loaded from the local database.
    pub login_user: User,
    /// The panel shown.
    pub component_type: ComponentType,
    /// The conversation selected.
    pub conv: CurrentItem,
    /// The conversation last asked to be removed, by id.
    pub remove_conv_id: String,
    /// The message being sent.
    pub send_msg: Message,
    pub unread: UnreadCount,
    pub friend_ship_state: FriendShipState,
    /// Notifications waiting to be shown, oldest first.
    pub notifications: Vec<Notification>,
    /// A timer clearing shown notifications runs.
    pub notification_timer: bool,
    /// Start-up loads still awaited.
    pub wait_count: usize,
    pub create_conv: CreateConvState,
}

/// What opening the home page asks its surroundings to do, in this order.
#[derive(Clone, Debug)]
pub enum HomeAction {
    /// Name the local database so, unless it already has a name.
    SetDatabaseName(String),
    /// Load user `id` and the stored selections from the local database, then report
    /// the query's success with what was loaded, or its failure.
    QueryUser(String),
    /// Report at once that the query is under way.
    ReportQuerying,
}

/// The work that accepting a friendship request hands to the outside: mark the
/// request `friendship_id` as agreed, store `friend`, then greet the friend on
/// behalf of `send_id`.
#[derive(Clone, Debug)]
pub struct FriendshipAgreement {
    pub friendship_id: String,
    pub friend: Friend,
    pub send_id: String,
}

/// `n` has kind `t`, title `title` and content `content`.
pub open spec fn is_entry(n: Notification, t: NotificationType, title: Seq<char>, content: String) -> bool {
    &&& n.type_ == t
    &&& n.title@ == title
    &&& n.content == content
}

/// `after` is `before` with one more notification at its end, made of `t`, `title` and `content`.
pub open spec fn appended(
    before: Seq<Notification>,
    after: Seq<Notification>,
    t: NotificationType,
    title: Seq<char>,
    content: String,
) -> bool {
    &&& after.len() == before.len() + 1
    &&& after.subrange(0, before.len() as int) == before
    &&& is_entry(after.last(), t, title, content)
}

/// The kind of the entry that `notify` queues for a notification of kind `t`:
/// warnings are queued as `Info` under a `WARN` title.
pub open spec fn queued_kind(t: NotificationType) -> NotificationType {
    match t {
        NotificationType::Error => NotificationType::Error,
        _ => NotificationType::Info,
    }
}

/// The title of the entry that `notify` queues for a notification of kind `t`.
pub open spec fn queued_title(t: NotificationType) -> Seq<char> {
    match t {
        NotificationType::Info => "INFO"@,
        NotificationType::Warn => "WARN"@,
        NotificationType::Error => "ERROR"@,
    }
}

/// The name of the local database of user `id`.
pub open spec fn db_name_of(id: Seq<char>) -> Seq<char> {
    "im-"@ + id
}

/// The name of the local database of user `id`: `im-` followed by the id.
pub fn db_name(id: &str) -> (name: String)
    ensures
        name@ == db_name_of(id@),
{
    proof { reveal_strlit("im-"); }
    let mut name = String::new();
    name.append("im-");
    name.append(id);
    name
}

/// `m` is the greeting sent on behalf of `send_id` to `friend`: a text the sender
/// has read and sent, not yet delivered, carrying the friend's own greeting or,
/// without one, `DEFAULT_HELLO_MESSAGE`.
pub open spec fn is_greeting(m: Message, send_id: String, friend: Friend) -> bool {
    &&& m.id == 0
    &&& m.seq == 0
    &&& m.server_id@ == Seq::<char>::empty()
    &&& m.send_id == send_id
    &&& m.friend_id == friend.friend_id
    &&& m.content_type == ContentType::Text
    &&& match friend.hello {
        Some(h) => m.content == h,
        None => m.content@ == DEFAULT_HELLO_MESSAGE@,
    }
    &&& m.send_time == 0
    &&& m.is_read
    &&& m.is_self
    &&& !m.is_success
    &&& m.file_content@ == Seq::<char>::empty()
}

/// A character of nanoid's URL-safe alphabet.
pub open spec fn is_url_safe_char(c: char) -> bool {
    ||| ('a' <= c && c <= 'z')
    ||| ('A' <= c && c <= 'Z')
    ||| ('0' <= c && c <= '9')
    ||| c == '_'
    ||| c == '-'
}

/// A random id of `size` characters, through `nanoid::format` with nanoid's default
/// random source and URL-safe alphabet (what `nanoid!(size)` expands to).
///
/// Claimed of nanoid: the id has `size` characters, each of the URL-safe alphabet
/// `A-Z a-z 0-9 _ -`. Which characters come is left open: they are random.
#[verifier::external_body]
fn random_id(size: usize) -> (id: String)
    requires
        0 < size < usize::MAX / 8,
    ensures
        id@.len() == size,
        forall|i: int| 0 <= i < id@.len() ==> is_url_safe_char(#[trigger] id@[i]),
{
    nanoid::format(nanoid::rngs::default, &nanoid::alphabet::SAFE, size)
}

/// The current time in milliseconds since the epoch, through
/// `chrono::Local::now().timestamp_millis()`. Nothing is claimed of the value: it is the clock's.
#[verifier::external_body]
fn now_millis() -> i64 {
    chrono::Local::now().timestamp_millis()
}

/// The greeting to `friend` on behalf of `send_id`, with the given local id and creation time.
pub fn hello_message(send_id: String, friend: &Friend, local_id: String, create_time: i64) -> (m: Message)
    ensures
        is_greeting(m, send_id, *friend),
        m.local_id == local_id,
        m.create_time == create_time,
{
    let content = match &friend.hello {
        Some(h) => h.clone(),
        None => DEFAULT_HELLO_MESSAGE.to_owned(),
    };
    Message {
        id: 0,
        seq: 0,
        local_id,
        server_id: String::new(),
        send_id,
        friend_id: friend.friend_id.clone(),
        content_type: ContentType::Text,
        content,
        create_time,
        send_time: 0,
        is_read: true,
        is_self: true,
        is_success: false,
        file_content: String::new(),
    }
}

/// The greeting to `friend` on behalf of `send_id`, created now under a fresh
/// 21-character local id.
pub fn new_hello_message(send_id: String, friend: &Friend) -> (m: Message)
    ensures
        is_greeting(m, send_id, *friend),
        m.local_id@.len() == 21,
        forall|i: int| 0 <= i < m.local_id@.len() ==> is_url_safe_char(#[trigger] m.local_id@[i]),
{
    let local_id = random_id(21);
    let create_time = now_millis();
    hello_message(send_id, friend, local_id, create_time)
}

impl Home {
    /// Opens the home page of user `id`, with the unread counts `unread` as stored:
    /// the messages panel, nothing selected, loaded or queued, the friendship panel on
    /// the request side, every start-up load awaited. The database is named after the
    /// user, the user is queried, and the query is reported as under way.
    pub fn new(id: String, unread: UnreadCount) -> (res: (Self, Vec<HomeAction>))
        ensures
            res.0.user.id == id,
            res.0.login_user.id@ == Seq::<char>::empty(),
            res.0.component_type == ComponentType::Messages,
            res.0.conv.item_id@ == Seq::<char>::empty(),
            res.0.remove_conv_id@ == Seq::<char>::empty(),
            Message::is_blank(res.0.send_msg),
            res.0.unread == unread,
            res.0.friend_ship_state.ship is None,
            res.0.friend_ship_state.friend is None,
            res.0.friend_ship_state.state_type == FriendShipStateType::Req,
            res.0.notifications@ == Seq::<Notification>::empty(),
            !res.0.notification_timer,
            res.0.wait_count == WAIT_COUNT,
            res.0.create_conv.friend is None,
            res.0.create_conv.group is None,
            res.0.create_conv.type_ == RightContentType::Default,
            res.1@.len() == 3,
            res.1@[0] matches HomeAction::SetDatabaseName(name) && name@ == db_name_of(id@),
            res.1@[1] == HomeAction::QueryUser(id),
            res.1@[2] == HomeAction::ReportQuerying,
    {
        let mut actions: Vec<HomeAction> = Vec::new();
        actions.push(HomeAction::SetDatabaseName(db_name(id.as_str())));
        actions.push(HomeAction::QueryUser(id.clone()));
        actions.push(HomeAction::ReportQuerying);
        let home = Home {
            user: User { id },
            login_user: User { id: String::new() },
            component_type: ComponentType::Messages,
            conv: CurrentItem { item_id: String::new() },
            remove_conv_id: String::new(),
            send_msg: Message::default(),
            unread,
            friend_ship_state: FriendShipState { ship: None, friend: None, state_type: FriendShipStateType::Req },
            notifications: Vec::new(),
            notification_timer: false,
            wait_count: WAIT_COUNT,
            create_conv: CreateConvState { friend: None, group: None, type_: RightContentType::Default },
        };
        (home, actions)
    }

    /// Queues an information with title `INFO`.
    pub fn info(&mut self, value: String)
        ensures
            appended(old(self).notifications@, final(self).notifications@, NotificationType::Info, "INFO"@, value),
            *final(self) == (Home { notifications: final(self).notifications, ..*old(self) }),
    {
        proof { reveal_strlit("INFO"); }
        let ghost before = self.notifications@;
        self.notifications.push(Notification {
            type_: NotificationType::Info,
            title: "INFO".to_owned(),
            content: value,
        });
        assert(self.notifications@.subrange(0, before.len() as int) =~= before);
    }

    /// Queues a warning: an `Info` entry with title `WARN`.
    pub fn warn(&mut self, value: String)
        ensures
            appended(old(self).notifications@, final(self).notifications@, NotificationType::Info, "WARN"@, value),
            *final(self) == (Home { notifications: final(self).notifications, ..*old(self) }),
    {
        proof { reveal_strlit("WARN"); }
        let ghost before = self.notifications@;
        self.notifications.push(Notification {
            type_: NotificationType::Info,
            title: "WARN".to_owned(),
            content: value,
        });
        assert(self.notifications@.subrange(0, before.len() as int) =~= before);
    }

    /// Queues an error with title `ERROR`.
    pub fn error(&mut self, value: String)
        ensures
            appended(old(self).notifications@, final(self).notifications@, NotificationType::Error, "ERROR"@, value),
            *final(self) == (Home { notifications: final(self).notifications, ..*old(self) }),
    {
        proof { reveal_strlit("ERROR"); }
        let ghost before = self.notifications@;
        self.notifications.push(Notification {
            type_: NotificationType::Error,
            title: "ERROR".to_owned(),
            content: value,
        });
        assert(self.notifications@.subrange(0, before.len() as int) =~= before);
    }

    /// Queues `notify`'s content as `info`, `warn` or `error` does, by its kind;
    /// its own title is not kept.
    pub fn notify(&mut self, notify: Notification)
        ensures
            appended(
                old(self).notifications@,
                final(self).notifications@,
                queued_kind(notify.type_),
                queued_title(notify.type_),
                notify.content,
            ),
            *final(self) == (Home { notifications: final(self).notifications, ..*old(self) }),
    {
        match notify.type_ {
            NotificationType::Info => self.info(notify.content),
            NotificationType::Warn => self.warn(notify.content),
            NotificationType::Error => self.error(notify.content),
        }
    }

    /// Accepts the friendship request `friendship_id` from `friend`: the friendship
    /// panel turns to the response side showing `friend`, and the agreement, with the
    /// logged-in user as sender of the greeting, is handed out. The page re-renders.
    pub fn agree_friendship(&mut self, friendship_id: String, friend: Friend) -> (res: (bool, FriendshipAgreement))
        ensures
            res.0,
            *final(self) == (Home {
                friend_ship_state: FriendShipState {
                    friend: Some(friend),
                    state_type: FriendShipStateType::Res,
                    ..old(self).friend_ship_state
                },
                ..*old(self)
            }),
            res.1.friendship_id == friendship_id,
            res.1.friend == friend,
            res.1.send_id == old(self).login_user.id,
    {
        self.friend_ship_state.friend = Some(friend.copy());
        self.friend_ship_state.state_type = FriendShipStateType::Res;
        let send_id = self.login_user.id.clone();
        (true, FriendshipAgreement { friendship_id, friend, send_id })
    }
}

/// Errors are queued as errors, informations and warnings as informations; each
/// kind keeps a title of its own, so the queue still tells the three apart.
pub proof fn law_queued_titles_tell_kinds_apart(a: NotificationType, b: NotificationType)
    ensures
        queued_title(a) == queued_title(b) ==> a == b,
        (queued_kind(a) == NotificationType::Error) == (a == NotificationType::Error),
{
    reveal_strlit("INFO");
    reveal_strlit("WARN");
    reveal_strlit("ERROR");
    if queued_title(a) == queued_title(b) && a != b {
        assert(queued_title(a)[0] != queued_title(b)[0] || queued_title(a).len() != queued_title(b).len());
    }
}

/// Each kind of notification is queued under its own name as title: `INFO`, `WARN`, `ERROR`.
pub proof fn law_titles_name_their_kind(t: NotificationType)
    ensures
        t == NotificationType::Info ==> queued_title(t) == "INFO"@,
        t == NotificationType::Warn ==> queued_title(t) == "WARN"@,
        t == NotificationType::Error ==> queued_title(t) == "ERROR"@,
        t == NotificationType::Error <==> queued_kind(t) == NotificationType::Error,
{
}

/// Different users get different local databases, each named `im-` and the user's id.
pub proof fn law_db_names_are_per_user(a: Seq<char>, b: Seq<char>)
    ensures
        db_name_of(a).len() == a.len() + 3,
        db_name_of(a).subrange(3, db_name_of(a).len() as int) == a,
        db_name_of(a) == db_name_of(b) ==> a == b,
{
    reveal_strlit("im-");
    assert(db_name_of(a).subrange(3, db_name_of(a).len() as int) =~= a);
    assert(db_name_of(b).subrange(3, db_name_of(b).len() as int) =~= b);
}

/// A greeting goes from the sender to the friend and says the friend's own greeting
/// when there is one, the default greeting otherwise.
pub proof fn law_greeting_prefers_friends_text(m: Message, send_id: String, friend: Friend)
    requires
        is_greeting(m, send_id, friend),
    ensures
        m.send_id == send_id,
        m.friend_id == friend.friend_id,
        friend.hello is Some ==> m.content == friend.hello.unwrap(),
        friend.hello is None ==> m.content@ == DEFAULT_HELLO_MESSAGE@,
        m.content_type == ContentType::Text,
        m.is_self && m.is_read && !m.is_success,
{
}

} // verus!
