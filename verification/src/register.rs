//! The registration page: form checks, code countdown and password strength.

use vstd::prelude::*;
use crate::text::{decimal, push_decimal, to_decimal};

verus! {

/// The pattern an e-mail address must match.
pub const EMAIL_PATTERN: &'static str = "^([a-zA-Z0-9_\\-\\.]+)@([a-zA-Z0-9_\\-\\.]+)\\.([a-zA-Z]{2,})$";

/// An ASCII letter.
pub open spec fn is_ascii_letter(c: char) -> bool {
    ('a' <= c && c <= 'z') || ('A' <= c && c <= 'Z')
}

/// A character allowed in the user and host parts of an address: a letter, a digit, `_`, `-` or `.`.
pub open spec fn is_address_char(c: char) -> bool {
    is_ascii_letter(c) || ('0' <= c && c <= '9') || c == '_' || c == '-' || c == '.'
}

/// The text `s` is, from `start` to `end`, a nonempty run of address characters.
pub open spec fn address_run(s: Seq<char>, start: int, end: int) -> bool {
    &&& start < end
    &&& forall|k: int| start <= k < end ==> is_address_char(#[trigger] s[k])
}

/// The text `s` is, from `start` to its end, at least two ASCII letters.
pub open spec fn letter_tail(s: Seq<char>, start: int) -> bool {
    &&& start + 2 <= s.len()
    &&& forall|k: int| start <= k < s.len() ==> is_ascii_letter(#[trigger] s[k])
}

/// The whole of `s` matches `EMAIL_PATTERN`: a user part, `@`, a host part, a dot
/// and a top-level domain of two or more letters.
pub open spec fn is_email_format(s: Seq<char>) -> bool {
    exists|at: int, dot: int|
        #![trigger s[at], s[dot]]
        0 <= at < dot < s.len() && s[at] == '@' && s[dot] == '.' && address_run(s, 0, at)
            && address_run(s, at + 1, dot) && letter_tail(s, dot + 1)
}

/// Whether `text` matches `pattern`, through `regex::Regex::new(pattern)` and `is_match`.
///
/// Claimed of the regex crate: `EMAIL_PATTERN` compiles, and a text matches it exactly
/// when `is_email_format` holds of it (`^` and `$` anchor at the ends of the whole text,
/// the classes are ASCII ranges). Other patterns are not admitted.
#[verifier::external_body]
fn regex_is_match(pattern: &str, text: &str) -> (matched: bool)
    requires
        pattern@ == EMAIL_PATTERN@,
    ensures
        matched == is_email_format(text@),
{
    regex::Regex::new(pattern).unwrap().is_match(text)
}

/// The strength score, from 0 to 4, that zxcvbn gives `password` with no user inputs.
pub uninterp spec fn zxcvbn_score(password: Seq<char>) -> u8;

/// The strength score of a password, through `zxcvbn::zxcvbn(password, &[])` and `score()`.
///
/// Claimed of zxcvbn: a nonempty password is scored (a blank one is an error), the
/// score depends on the password alone and is at most 4. Not stated: zxcvbn also
/// fails when the system clock reads before 1970 or steps back during the estimate.
#[verifier::external_body]
fn password_score(password: &str) -> (score: u8)
    requires
        password@.len() > 0,
    ensures
        score == zxcvbn_score(password@),
        score <= 4,
{
    zxcvbn::zxcvbn(password, &[]).unwrap().score()
}

/// The progress of the registration request.
#[derive(Clone, Copy, Debug, PartialEq, Eq, Structural)]
pub enum RequestStatus {
    Default,
    Pendding,
    Success,
    Failed,
}

impl Default for RequestStatus {
    fn default() -> (s: Self)
        ensures
            s == RequestStatus::Default,
    {
        RequestStatus::Default
    }
}

/// What is sent to the server to register a user.
#[derive(Clone, Debug)]
pub struct UserRegister {
    pub name: String,
    pub password: String,
    pub email: String,
    pub avatar: String,
    pub code: String,
}

/// The form fields as they stand when the user submits.
#[derive(Clone, Debug)]
pub struct RegisterForm {
    pub name: String,
    pub email: String,
    pub pwd: String,
    pub code: String,
}

/// What happens on the registration page.
#[derive(Debug)]
pub enum RegisterMsg {
    /// The form is submitted.
    Register(RegisterForm),
    /// The form's submit event.
    OnEnterKeyDown,
    /// A key is pressed in the form: the key's name.
    OnFormKeyDown(String),
    /// The address field changed to this value.
    OnEmailChange(String),
    /// The send-code button is pressed; the address field holds this value.
    SendCode(String),
    SendCodeSuccess,
    /// Mailing the code failed, for this reason.
    SendCodeFailed(String),
    /// One second of the countdown has passed.
    UpdateTime,
    Request(RequestStatus),
    OnAvatarClick(usize),
    /// The password field changed to this value.
    OnPwdInput(String),
    /// The repeated-password field changed to this value.
    OnRePwdInput(String),
}

/// What the page asks its surroundings to do.
#[derive(Debug)]
pub enum RegisterAction {
    /// Report `Request(Pendding)`, send the registration to the server, then report
    /// `Request(Success)` or `Request(Failed)` by its answer.
    Submit(UserRegister),
    /// Keep the browser from acting on the event.
    PreventDefault,
    /// Ask the server to mail a code to this address; report `SendCodeSuccess` or
    /// `SendCodeFailed` by its answer.
    SendMail(String),
    /// Hand this message back to the page at once.
    Deliver(RegisterMsg),
    /// Start, or restart, a timer that reports `UpdateTime` every second.
    StartCountdown,
    /// Stop the countdown timer.
    StopCountdown,
    /// Go to the login page two seconds from now.
    GoToLoginLater,
}

/// The state of the registration page.
#[derive(Debug)]
pub struct Register {
    pub re_pwd_is_modify: bool,
    pub pwd_is_same: bool,
    /// The address field matches `EMAIL_PATTERN`.
    pub email_format: bool,
    pub email_is_modify: bool,
    /// The password strength in percent.
    pub pwd_strength: u8,
    /// A code was sent and the countdown runs.
    pub is_code_send: bool,
    /// The countdown timer runs.
    pub code_timer: bool,
    /// Seconds until another code may be sent.
    pub time: u8,
    pub req_status: RequestStatus,
    pub avatars: Vec<String>,
    pub avatar: String,
    pub pwd: String,
}

impl Register {
    /// The countdown timer runs, and a code counts as sent, exactly while seconds
    /// remain; the strength is a whole quarter of 100; the chosen avatar is one of those offered.
    pub open spec fn wf(self) -> bool {
        &&& self.code_timer == (self.time > 0)
        &&& self.is_code_send == (self.time > 0)
        &&& self.pwd_strength % 25 == 0
        &&& self.pwd_strength <= 100
        &&& self.avatars@.contains(self.avatar)
    }

    /// The registration that submitting `form` sends, if the checks pass: the two
    /// passwords matched, and name, address and password are filled in.
    pub open spec fn submission(self, form: RegisterForm) -> Option<UserRegister> {
        if self.pwd_is_same && form.name@.len() > 0 && form.email@.len() > 0 && form.pwd@.len() > 0 {
            Some(UserRegister {
                name: form.name,
                password: form.pwd,
                email: form.email,
                avatar: self.avatar,
                code: form.code,
            })
        } else {
            None
        }
    }

    /// The strength shown for `pwd`: its zxcvbn score times 25, or 0 when it is empty.
    pub open spec fn strength_of(pwd: Seq<char>) -> u8 {
        if pwd.len() > 0 { (zxcvbn_score(pwd) * 25) as u8 } else { 0 }
    }

    /// The state one countdown second later.
    pub open spec fn after_tick(self) -> Register {
        if self.time == 1 {
            Register { time: 0, code_timer: false, is_code_send: false, ..self }
        } else {
            Register { time: (self.time - 1) as u8, ..self }
        }
    }

    /// The state, whether the page re-renders, and the actions, after `msg`.
    pub open spec fn next(self, msg: RegisterMsg) -> (Register, bool, Seq<RegisterAction>) {
        match msg {
            RegisterMsg::Register(form) => match self.submission(form) {
                Some(reg) => (self, true, seq![RegisterAction::Submit(reg)]),
                None => (self, false, Seq::empty()),
            },
            RegisterMsg::OnEnterKeyDown => (self, false, seq![RegisterAction::PreventDefault]),
            RegisterMsg::OnFormKeyDown(key) => (
                self,
                false,
                if key@ == "Enter"@ { seq![RegisterAction::PreventDefault] } else { Seq::empty() },
            ),
            RegisterMsg::OnEmailChange(email) => (
                Register { email_is_modify: true, email_format: is_email_format(email@), ..self },
                true,
                Seq::empty(),
            ),
            RegisterMsg::SendCode(email) => (
                self,
                false,
                if self.email_format {
                    seq![RegisterAction::SendMail(email), RegisterAction::Deliver(RegisterMsg::SendCodeSuccess)]
                } else {
                    Seq::empty()
                },
            ),
            RegisterMsg::SendCodeSuccess => (
                Register { time: 60, is_code_send: true, code_timer: true, ..self },
                true,
                seq![RegisterAction::StartCountdown],
            ),
            RegisterMsg::SendCodeFailed(_) => (self, false, Seq::empty()),
            RegisterMsg::UpdateTime => (
                self.after_tick(),
                true,
                if self.time == 1 { seq![RegisterAction::StopCountdown] } else { Seq::empty() },
            ),
            RegisterMsg::Request(status) => (
                Register { req_status: status, ..self },
                true,
                if status == RequestStatus::Success { seq![RegisterAction::GoToLoginLater] } else { Seq::empty() },
            ),
            RegisterMsg::OnAvatarClick(index) => (
                Register { avatar: self.avatars@[index as int], ..self },
                true,
                Seq::empty(),
            ),
            RegisterMsg::OnPwdInput(pwd) => (
                Register { pwd_strength: Self::strength_of(pwd@), pwd, ..self },
                true,
                Seq::empty(),
            ),
            RegisterMsg::OnRePwdInput(re_pwd) => (
                Register { re_pwd_is_modify: true, pwd_is_same: re_pwd@ == self.pwd@, ..self },
                true,
                Seq::empty(),
            ),
        }
    }

    /// The inputs on which the page can take `msg`: a countdown second needs seconds
    /// left, and a timer to stop at the last one; a chosen avatar must be one of those offered.
    pub open spec fn accepts(self, msg: RegisterMsg) -> bool {
        match msg {
            RegisterMsg::UpdateTime => self.time > 0 && (self.time == 1 ==> self.code_timer),
            RegisterMsg::OnAvatarClick(index) => index < self.avatars@.len(),
            _ => true,
        }
    }
}


/// Whether the key pressed is `Enter`.
fn is_enter_key(key: &String) -> (enter: bool)
    ensures
        enter == (key@ == "Enter"@),
{
    let enter = "Enter".to_owned();
    *key == enter
}

impl Register {
    /// The page as it opens: three avatars to choose from, the first chosen, every
    /// field empty, no code sent, no request made.
    pub fn create() -> (page: Self)
        ensures
            page.wf(),
            page.avatars@.len() == 3,
            page.avatars@[0]@ == "./images/avatars/avatar1.png"@,
            page.avatars@[1]@ == "./images/avatars/avatar2.png"@,
            page.avatars@[2]@ == "./images/avatars/avatar3.png"@,
            page.avatar == page.avatars@[0],
            !page.re_pwd_is_modify,
            !page.pwd_is_same,
            !page.email_format,
            !page.email_is_modify,
            page.pwd_strength == 0,
            !page.is_code_send,
            !page.code_timer,
            page.time == 0,
            page.req_status == RequestStatus::Default,
            page.pwd@ == Seq::<char>::empty(),
    {
        let mut avatars: Vec<String> = Vec::new();
        avatars.push("./images/avatars/avatar1.png".to_owned());
        avatars.push("./images/avatars/avatar2.png".to_owned());
        avatars.push("./images/avatars/avatar3.png".to_owned());
        let avatar = avatars[0].clone();
        assert(avatars@[0] == avatar);
        Register {
            re_pwd_is_modify: false,
            pwd_is_same: false,
            email_format: false,
            email_is_modify: false,
            pwd_strength: 0,
            is_code_send: false,
            code_timer: false,
            time: 0,
            req_status: RequestStatus::Default,
            avatars,
            avatar,
            pwd: String::new(),
        }
    }

    /// Takes `msg`: the new state, whether to re-render and the actions are those of `next`.
    pub fn update(&mut self, msg: RegisterMsg) -> (res: (bool, Vec<RegisterAction>))
        requires
            old(self).accepts(msg),
        ensures
            *final(self) == old(self).next(msg).0,
            res.0 == old(self).next(msg).1,
            res.1@ == old(self).next(msg).2,
            old(self).wf() ==> final(self).wf(),
            msg is OnPwdInput ==> final(self).pwd_strength % 25 == 0 && final(self).pwd_strength <= 100,
    {
        let mut actions: Vec<RegisterAction> = Vec::new();
        match msg {
            RegisterMsg::Register(form) => {
                if !self.pwd_is_same {
                    return (false, actions);
                }
                if form.name.as_str().is_empty() {
                    return (false, actions);
                }
                if form.email.as_str().is_empty() || form.pwd.as_str().is_empty() {
                    return (false, actions);
                }
                let reg = UserRegister {
                    name: form.name,
                    password: form.pwd,
                    email: form.email,
                    avatar: self.avatar.clone(),
                    code: form.code,
                };
                actions.push(RegisterAction::Submit(reg));
                (true, actions)
            },
            RegisterMsg::OnEnterKeyDown => {
                actions.push(RegisterAction::PreventDefault);
                (false, actions)
            },
            RegisterMsg::OnFormKeyDown(key) => {
                if is_enter_key(&key) {
                    actions.push(RegisterAction::PreventDefault);
                }
                (false, actions)
            },
            RegisterMsg::OnEmailChange(email) => {
                self.email_is_modify = true;
                self.email_format = regex_is_match(EMAIL_PATTERN, email.as_str());
                (true, actions)
            },
            RegisterMsg::SendCode(email) => {
                if !self.email_format {
                    return (false, actions);
                }
                actions.push(RegisterAction::SendMail(email));
                actions.push(RegisterAction::Deliver(RegisterMsg::SendCodeSuccess));
                (false, actions)
            },
            RegisterMsg::SendCodeSuccess => {
                actions.push(RegisterAction::StartCountdown);
                self.code_timer = true;
                self.time = 60;
                self.is_code_send = true;
                (true, actions)
            },
            RegisterMsg::SendCodeFailed(_) => (false, actions),
            RegisterMsg::UpdateTime => {
                self.time = self.time - 1;
                if self.time == 0 {
                    actions.push(RegisterAction::StopCountdown);
                    self.code_timer = false;
                    self.is_code_send = false;
                }
                (true, actions)
            },
            RegisterMsg::Request(status) => {
                self.req_status = status;
                if status == RequestStatus::Success {
                    actions.push(RegisterAction::GoToLoginLater);
                }
                (true, actions)
            },
            RegisterMsg::OnAvatarClick(index) => {
                self.avatar = self.avatars[index].clone();
                assert(self.avatars@[index as int] == self.avatar);
                (true, actions)
            },
            RegisterMsg::OnPwdInput(pwd) => {
                self.pwd = pwd;
                if !self.pwd.as_str().is_empty() {
                    let score = password_score(self.pwd.as_str());
                    self.pwd_strength = score * 25;
                } else {
                    self.pwd_strength = 0;
                }
                (true, actions)
            },
            RegisterMsg::OnRePwdInput(re_pwd) => {
                self.re_pwd_is_modify = true;
                self.pwd_is_same = re_pwd == self.pwd;
                (true, actions)
            },
        }
    }
}

/// An avatar on offer, and whether it is the chosen one.
#[derive(Clone, Debug)]
pub struct AvatarChoice {
    pub src: String,
    pub active: bool,
}

/// A banner: its style classes and its text.
#[derive(Clone, Debug)]
pub struct Banner {
    pub class: String,
    pub text: String,
}

/// A mark beside the repeated password: its symbol and colour.
#[derive(Clone, Debug)]
pub struct Mark {
    pub symbol: String,
    pub color: String,
}

/// What the registration page shows.
#[derive(Clone, Debug)]
pub struct RegisterView {
    pub avatars: Vec<AvatarChoice>,
    /// The style class of the address field.
    pub email_class: String,
    /// The caption of the send-code button.
    pub code_button: String,
    pub code_button_disabled: bool,
    /// The banner about the registration request, if any.
    pub banner: Option<Banner>,
    /// The value of the strength meter, if it is shown.
    pub pwd_meter: Option<String>,
    /// Whether the repeated password matches, once it was typed.
    pub pwd_mark: Option<Mark>,
    /// The value of the password field.
    pub pwd: String,
}

/// The style class of the address field.
pub open spec fn email_class_of(modified: bool, valid: bool) -> Seq<char> {
    if !modified { ""@ } else if valid { "email-right"@ } else { "email-wrong"@ }
}

/// The caption of the send-code button.
pub open spec fn code_button_of(sent: bool, time: u8) -> Seq<char> {
    if sent { decimal(time as nat) + "s 后发送"@ } else { "发送验证码"@ }
}

/// The banner for a request status: classes and text.
pub open spec fn banner_of(status: RequestStatus) -> Option<(Seq<char>, Seq<char>)> {
    match status {
        RequestStatus::Default => None,
        RequestStatus::Pendding => Some(("register-info box-shadow"@, "正在注册"@)),
        RequestStatus::Success => Some(("register-success box-shadow"@, "注册成功，正在跳转登录页面"@)),
        RequestStatus::Failed => Some(("register-error box-shadow"@, "注册失败，请联系管理员"@)),
    }
}

/// The mark beside the repeated password: symbol and colour.
pub open spec fn mark_of(modified: bool, same: bool) -> Option<(Seq<char>, Seq<char>)> {
    if !modified { None } else if same { Some(("√"@, "green"@)) } else { Some(("×"@, "red"@)) }
}

/// `v` shows `page`.
pub open spec fn shows(v: RegisterView, page: Register) -> bool {
    &&& v.avatars@.len() == page.avatars@.len()
    &&& forall|i: int| 0 <= i < page.avatars@.len() ==> {
        &&& (#[trigger] v.avatars@[i]).src == page.avatars@[i]
        &&& v.avatars@[i].active == (page.avatars@[i]@ == page.avatar@)
    }
    &&& v.email_class@ == email_class_of(page.email_is_modify, page.email_format)
    &&& v.code_button@ == code_button_of(page.is_code_send, page.time)
    &&& v.code_button_disabled == (page.time != 0)
    &&& match banner_of(page.req_status) {
        None => v.banner is None,
        Some((class, text)) => v.banner matches Some(b) && b.class@ == class && b.text@ == text,
    }
    &&& if page.pwd_strength > 0 {
        v.pwd_meter matches Some(m) && m@ == decimal(page.pwd_strength as nat)
    } else {
        v.pwd_meter is None
    }
    &&& match mark_of(page.re_pwd_is_modify, page.pwd_is_same) {
        None => v.pwd_mark is None,
        Some((symbol, color)) => v.pwd_mark matches Some(m) && m.symbol@ == symbol && m.color@ == color,
    }
    &&& v.pwd == page.pwd
}

fn banner(class: &str, text: &str) -> (b: Banner)
    ensures
        b.class@ == class@,
        b.text@ == text@,
{
    Banner { class: class.to_owned(), text: text.to_owned() }
}

fn mark(symbol: &str, color: &str) -> (m: Mark)
    ensures
        m.symbol@ == symbol@,
        m.color@ == color@,
{
    Mark { symbol: symbol.to_owned(), color: color.to_owned() }
}

impl Register {
    /// What the page shows in its current state.
    pub fn view(&self) -> (v: RegisterView)
        ensures
            shows(v, *self),
    {
        let mut avatars: Vec<AvatarChoice> = Vec::new();
        let n = self.avatars.len();
        for i in 0..n
            invariant
                n == self.avatars@.len(),
                avatars@.len() == i,
                forall|j: int| 0 <= j < i ==> {
                    &&& (#[trigger] avatars@[j]).src == self.avatars@[j]
                    &&& avatars@[j].active == (self.avatars@[j]@ == self.avatar@)
                },
        {
            let active = self.avatars[i] == self.avatar;
            avatars.push(AvatarChoice { src: self.avatars[i].clone(), active });
        }
        let email_class = if !self.email_is_modify {
            "".to_owned()
        } else if self.email_format {
            "email-right".to_owned()
        } else {
            "email-wrong".to_owned()
        };
        let code_button = if self.is_code_send {
            let mut t = String::new();
            push_decimal(&mut t, self.time as u64);
            t.append("s 后发送");
            t
        } else {
            "发送验证码".to_owned()
        };
        let banner = match self.req_status {
            RequestStatus::Default => None,
            RequestStatus::Pendding => Some(banner("register-info box-shadow", "正在注册")),
            RequestStatus::Success => Some(banner("register-success box-shadow", "注册成功，正在跳转登录页面")),
            RequestStatus::Failed => Some(banner("register-error box-shadow", "注册失败，请联系管理员")),
        };
        let pwd_meter = if self.pwd_strength > 0 {
            Some(to_decimal(self.pwd_strength as u64))
        } else {
            None
        };
        let pwd_mark = if !self.re_pwd_is_modify {
            None
        } else if self.pwd_is_same {
            Some(mark("√", "green"))
        } else {
            Some(mark("×", "red"))
        };
        RegisterView {
            avatars,
            email_class,
            code_button,
            code_button_disabled: self.time != 0,
            banner,
            pwd_meter,
            pwd_mark,
            pwd: self.pwd.clone(),
        }
    }
}

/// The state `n` countdown seconds after `page`.
pub open spec fn ticks(page: Register, n: nat) -> Register
    decreases n,
{
    if n == 0 { page } else { ticks(page.after_tick(), (n - 1) as nat) }
}

/// Once started, the countdown runs for exactly as many seconds as remain: before
/// that the send-code button stays disabled and the timer runs; then the timer stops,
/// the button is enabled again, and nothing else on the page has changed.
pub proof fn law_countdown_runs_out(page: Register)
    requires
        page.wf(),
    ensures
        forall|k: nat| #![trigger ticks(page, k)] k < page.time ==> {
            &&& ticks(page, k).time == page.time - k
            &&& ticks(page, k).code_timer
            &&& ticks(page, k).wf()
        },
        ticks(page, page.time as nat).time == 0,
        !ticks(page, page.time as nat).code_timer,
        !ticks(page, page.time as nat).is_code_send,
        ticks(page, page.time as nat).wf(),
        ticks(page, page.time as nat) == (Register { time: 0, code_timer: false, is_code_send: false, ..page }),
    decreases page.time,
{
    if page.time > 0 {
        let next = page.after_tick();
        law_countdown_runs_out(next);
        assert forall|k: nat| #![trigger ticks(page, k)] k < page.time implies {
            &&& ticks(page, k).time == page.time - k
            &&& ticks(page, k).code_timer
            &&& ticks(page, k).wf()
        } by {
            if k > 0 {
                assert(ticks(page, k) == ticks(next, (k - 1) as nat));
            }
        }
        assert(ticks(page, page.time as nat) == ticks(next, next.time as nat));
    }
}

/// A code once sent blocks the next one for sixty seconds: every second of the first
/// sixty the button is disabled, and at the sixtieth it is enabled again.
pub proof fn law_code_cooldown_is_sixty_seconds(page: Register)
    requires
        page.wf(),
    ensures
        ({
            let sent = page.next(RegisterMsg::SendCodeSuccess).0;
            &&& sent.time == 60
            &&& forall|k: nat| #![trigger ticks(sent, k)] k < 60 ==> ticks(sent, k).time > 0
            &&& ticks(sent, 60).time == 0
            &&& !ticks(sent, 60).is_code_send
        }),
{
    let sent = page.next(RegisterMsg::SendCodeSuccess).0;
    assert(sent.wf());
    law_countdown_runs_out(sent);
}

/// A registration goes out only when the two passwords matched and name, address and
/// password are filled in; it carries the form's values and the chosen avatar.
pub proof fn law_submission_only_when_complete(page: Register, form: RegisterForm)
    ensures
        page.submission(form) matches Some(reg) ==> {
            &&& page.pwd_is_same
            &&& reg.name == form.name && reg.name@.len() > 0
            &&& reg.email == form.email && reg.email@.len() > 0
            &&& reg.password == form.pwd && reg.password@.len() > 0
            &&& reg.code == form.code
            &&& reg.avatar == page.avatar
        },
        (page.pwd_is_same && form.name@.len() > 0 && form.email@.len() > 0 && form.pwd@.len() > 0)
            ==> page.submission(form) is Some,
{
}

/// Submitting a complete form with matching passwords sends exactly one registration,
/// made of the form's name, password, address and code and of the avatar chosen at that
/// moment, and leaves the page as it was; any other submission is refused without action.
pub proof fn law_submit_sends_the_form_and_chosen_avatar(page: Register, form: RegisterForm)
    ensures
        ({
            let (after, render, actions) = page.next(RegisterMsg::Register(form));
            &&& after == page
            &&& if page.pwd_is_same && form.name@.len() > 0 && form.email@.len() > 0 && form.pwd@.len() > 0 {
                &&& render
                &&& actions.len() == 1
                &&& actions[0] matches RegisterAction::Submit(reg)
                &&& reg.name == form.name
                &&& reg.password == form.pwd
                &&& reg.email == form.email
                &&& reg.code == form.code
                &&& reg.avatar == page.avatar
            } else {
                !render && actions.len() == 0
            }
        }),
{
}

/// The avatar clicked is the one a later complete submission carries.
pub proof fn law_clicked_avatar_is_submitted(page: Register, index: usize, form: RegisterForm)
    requires
        index < page.avatars@.len(),
        page.pwd_is_same,
        form.name@.len() > 0,
        form.email@.len() > 0,
        form.pwd@.len() > 0,
    ensures
        ({
            let (chosen, render, actions) = page.next(RegisterMsg::OnAvatarClick(index));
            let (_, _, sent) = chosen.next(RegisterMsg::Register(form));
            &&& render
            &&& actions.len() == 0
            &&& chosen.avatar == page.avatars@[index as int]
            &&& sent.len() == 1
            &&& sent[0] matches RegisterAction::Submit(reg)
            &&& reg.avatar == page.avatars@[index as int]
        }),
{
    law_submit_sends_the_form_and_chosen_avatar(page.next(RegisterMsg::OnAvatarClick(index)).0, form);
}

/// Typing the repeated password decides afresh whether it equals the password,
/// whatever was decided before; nothing else on the page changes.
pub proof fn law_repeat_check_is_fresh(page: Register, re_pwd: String)
    ensures
        ({
            let (after, render, actions) = page.next(RegisterMsg::OnRePwdInput(re_pwd));
            &&& after.re_pwd_is_modify
            &&& after.pwd_is_same == (re_pwd@ == page.pwd@)
            &&& after == (Register { re_pwd_is_modify: after.re_pwd_is_modify, pwd_is_same: after.pwd_is_same, ..page })
            &&& render
            &&& actions.len() == 0
        }),
{
}

/// A repeated password that differs from the password blocks every submission that follows.
pub proof fn law_mismatch_blocks_submission(page: Register, re_pwd: String, form: RegisterForm)
    requires
        re_pwd@ != page.pwd@,
    ensures
        ({
            let (after, _, _) = page.next(RegisterMsg::OnRePwdInput(re_pwd));
            let (_, render, actions) = after.next(RegisterMsg::Register(form));
            &&& !after.pwd_is_same
            &&& !render
            &&& actions.len() == 0
        }),
{
    law_repeat_check_is_fresh(page, re_pwd);
    law_submit_sends_the_form_and_chosen_avatar(page.next(RegisterMsg::OnRePwdInput(re_pwd)).0, form);
}

/// A new password is kept as typed and scored: no strength when empty, else 25 per
/// zxcvbn point; whether the repeated password matched is not reconsidered.
pub proof fn law_password_input(page: Register, pwd: String)
    ensures
        ({
            let (after, render, actions) = page.next(RegisterMsg::OnPwdInput(pwd));
            &&& after.pwd == pwd
            &&& (pwd@.len() == 0 ==> after.pwd_strength == 0)
            &&& (pwd@.len() > 0 && zxcvbn_score(pwd@) <= 4 ==> after.pwd_strength == 25 * zxcvbn_score(pwd@))
            &&& after == (Register { pwd: after.pwd, pwd_strength: after.pwd_strength, ..page })
            &&& render
            &&& actions.len() == 0
        }),
{
}

/// A changed address is marked as touched and judged by the e-mail pattern alone.
pub proof fn law_address_is_judged_by_pattern(page: Register, email: String)
    ensures
        ({
            let (after, render, actions) = page.next(RegisterMsg::OnEmailChange(email));
            &&& after.email_is_modify
            &&& after.email_format == is_email_format(email@)
            &&& after == (Register { email_is_modify: true, email_format: after.email_format, ..page })
            &&& render
            &&& actions.len() == 0
        }),
{
}

/// A code is mailed, and reported sent at once, only when the address was judged valid;
/// otherwise asking for a code does nothing. The page itself does not change.
pub proof fn law_code_goes_only_to_valid_address(page: Register, email: String)
    ensures
        ({
            let (after, render, actions) = page.next(RegisterMsg::SendCode(email));
            &&& after == page
            &&& !render
            &&& if page.email_format {
                &&& actions.len() == 2
                &&& actions[0] == RegisterAction::SendMail(email)
                &&& actions[1] == RegisterAction::Deliver(RegisterMsg::SendCodeSuccess)
            } else {
                actions.len() == 0
            }
        }),
{
}

/// After an address that fails the pattern, asking for a code mails nothing.
pub proof fn law_invalid_address_gets_no_code(page: Register, typed: String, email: String)
    requires
        !is_email_format(typed@),
    ensures
        page.next(RegisterMsg::OnEmailChange(typed)).0.next(RegisterMsg::SendCode(email)).2.len() == 0,
{
    law_address_is_judged_by_pattern(page, typed);
    law_code_goes_only_to_valid_address(page.next(RegisterMsg::OnEmailChange(typed)).0, email);
}

/// A code reported sent starts a sixty-second countdown, restarting any running one.
pub proof fn law_code_sent_starts_countdown(page: Register)
    ensures
        ({
            let (after, render, actions) = page.next(RegisterMsg::SendCodeSuccess);
            &&& after.time == 60
            &&& after.is_code_send
            &&& after.code_timer
            &&& after == (Register { time: 60, is_code_send: true, code_timer: true, ..page })
            &&& render
            &&& actions.len() == 1
            &&& actions[0] == RegisterAction::StartCountdown
        }),
{
}

/// Each countdown second takes one second off; the timer is stopped exactly when
/// none is left, and only then does the page count the code as no longer sent.
pub proof fn law_countdown_second(page: Register)
    requires
        page.time > 0,
    ensures
        ({
            let (after, render, actions) = page.next(RegisterMsg::UpdateTime);
            &&& after.time == page.time - 1
            &&& render
            &&& (after.time == 0 ==> actions.len() == 1 && actions[0] == RegisterAction::StopCountdown
                && !after.code_timer && !after.is_code_send)
            &&& (after.time > 0 ==> actions.len() == 0 && after.code_timer == page.code_timer
                && after.is_code_send == page.is_code_send)
            &&& after == (Register {
                time: after.time,
                code_timer: after.code_timer,
                is_code_send: after.is_code_send,
                ..page
            })
        }),
{
}

/// The request status is recorded as reported, and the page moves on to the login page
/// only after a successful registration.
pub proof fn law_login_only_after_success(page: Register, status: RequestStatus)
    ensures
        ({
            let (after, render, actions) = page.next(RegisterMsg::Request(status));
            &&& after == (Register { req_status: status, ..page })
            &&& render
            &&& (status == RequestStatus::Success ==> actions.len() == 1 && actions[0] == RegisterAction::GoToLoginLater)
            &&& (status != RequestStatus::Success ==> actions.len() == 0)
        }),
{
}

/// Only the Enter key is kept from the browser; a failed mailing changes nothing.
pub proof fn law_keys_and_failed_mail(page: Register, key: String, reason: String)
    ensures
        ({
            let (after, render, actions) = page.next(RegisterMsg::OnFormKeyDown(key));
            &&& after == page && !render
            &&& (key@ == "Enter"@ ==> actions.len() == 1 && actions[0] == RegisterAction::PreventDefault)
            &&& (key@ != "Enter"@ ==> actions.len() == 0)
        }),
        page.next(RegisterMsg::OnEnterKeyDown) == (page, false, seq![RegisterAction::PreventDefault]),
        page.next(RegisterMsg::SendCodeFailed(reason)).0 == page,
        !page.next(RegisterMsg::SendCodeFailed(reason)).1,
        page.next(RegisterMsg::SendCodeFailed(reason)).2.len() == 0,
{
}

/// The banner tells the request's outcome: nothing before a request, "registering"
/// while it runs, success with the coming redirection, or failure with whom to ask.
pub proof fn law_banner_tells_outcome(v: RegisterView, page: Register)
    requires
        shows(v, page),
    ensures
        page.req_status == RequestStatus::Default ==> v.banner is None,
        page.req_status == RequestStatus::Pendding ==> (v.banner matches Some(b) && b.text@ == "正在注册"@
            && b.class@ == "register-info box-shadow"@),
        page.req_status == RequestStatus::Success ==> (v.banner matches Some(b) && b.text@ == "注册成功，正在跳转登录页面"@
            && b.class@ == "register-success box-shadow"@),
        page.req_status == RequestStatus::Failed ==> (v.banner matches Some(b) && b.text@ == "注册失败，请联系管理员"@
            && b.class@ == "register-error box-shadow"@),
{
}

/// Different request statuses never show the same banner text.
pub proof fn law_banner_texts_differ(a: RequestStatus, b: RequestStatus)
    requires
        a != b,
        banner_of(a) is Some,
        banner_of(b) is Some,
    ensures
        banner_of(a).unwrap().1 != banner_of(b).unwrap().1,
{
    reveal_strlit("正在注册");
    reveal_strlit("注册成功，正在跳转登录页面");
    reveal_strlit("注册失败，请联系管理员");
    let ta = banner_of(a).unwrap().1;
    let tb = banner_of(b).unwrap().1;
    if ta.len() == tb.len() {
        assert(ta[2] != tb[2]);
    }
}

/// The page shows: the chosen avatar marked, the address field judged once touched,
/// the code button disabled with its seconds while the countdown runs and inviting
/// a code otherwise, the strength meter only for a scored password, and a tick in
/// green or a cross in red once the repeated password was typed.
pub proof fn law_view_reflects_page(v: RegisterView, page: Register)
    requires
        shows(v, page),
    ensures
        v.avatars@.len() == page.avatars@.len(),
        forall|i: int| 0 <= i < page.avatars@.len() ==> (#[trigger] v.avatars@[i]).src == page.avatars@[i],
        forall|i: int| 0 <= i < page.avatars@.len() ==> (#[trigger] v.avatars@[i]).active == (page.avatars@[i]@ == page.avatar@),
        !page.email_is_modify ==> v.email_class@ == ""@,
        page.email_is_modify && page.email_format ==> v.email_class@ == "email-right"@,
        page.email_is_modify && !page.email_format ==> v.email_class@ == "email-wrong"@,
        v.code_button_disabled == (page.time > 0),
        page.is_code_send ==> v.code_button@ == decimal(page.time as nat) + "s 后发送"@,
        !page.is_code_send ==> v.code_button@ == "发送验证码"@,
        (v.pwd_meter is Some) == (page.pwd_strength > 0),
        !page.re_pwd_is_modify ==> v.pwd_mark is None,
        page.re_pwd_is_modify && page.pwd_is_same ==> (v.pwd_mark matches Some(m) && m.symbol@ == "√"@ && m.color@ == "green"@),
        page.re_pwd_is_modify && !page.pwd_is_same ==> (v.pwd_mark matches Some(m) && m.symbol@ == "×"@ && m.color@ == "red"@),
        v.pwd == page.pwd,
{
}

} // verus!
