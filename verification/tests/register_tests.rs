use im_client::register::{
    Register, RegisterAction, RegisterForm, RegisterMsg, RequestStatus,
};

fn form(name: &str, email: &str, pwd: &str, code: &str) -> RegisterForm {
    RegisterForm {
        name: name.to_string(),
        email: email.to_string(),
        pwd: pwd.to_string(),
        code: code.to_string(),
    }
}

fn page_with_matching_passwords() -> Register {
    let mut page = Register::create();
    page.update(RegisterMsg::OnPwdInput("s3cret-Passw0rd".to_string()));
    page.update(RegisterMsg::OnRePwdInput("s3cret-Passw0rd".to_string()));
    page
}

#[test]
fn create_offers_three_avatars_first_chosen() {
    let page = Register::create();
    assert_eq!(page.avatars.len(), 3);
    assert_eq!(page.avatars[0], "./images/avatars/avatar1.png");
    assert_eq!(page.avatars[2], "./images/avatars/avatar3.png");
    assert_eq!(page.avatar, page.avatars[0]);
    assert_eq!(page.time, 0);
    assert!(!page.is_code_send && !page.code_timer);
    assert_eq!(page.req_status, RequestStatus::Default);
}

#[test]
fn submit_with_complete_form() {
    let mut page = page_with_matching_passwords();
    let (render, actions) = page.update(RegisterMsg::Register(form("tom", "tom@mail.com", "pw", "1234")));
    assert!(render);
    assert_eq!(actions.len(), 1);
    match &actions[0] {
        RegisterAction::Submit(reg) => {
            assert_eq!(reg.name, "tom");
            assert_eq!(reg.email, "tom@mail.com");
            assert_eq!(reg.password, "pw");
            assert_eq!(reg.code, "1234");
            assert_eq!(reg.avatar, "./images/avatars/avatar1.png");
        }
        other => panic!("unexpected action {:?}", other),
    }
}

#[test]
fn no_submit_when_passwords_differ() {
    let mut page = Register::create();
    page.update(RegisterMsg::OnPwdInput("abc".to_string()));
    page.update(RegisterMsg::OnRePwdInput("abd".to_string()));
    assert!(!page.pwd_is_same);
    let (render, actions) = page.update(RegisterMsg::Register(form("tom", "tom@mail.com", "pw", "1")));
    assert!(!render);
    assert!(actions.is_empty());
}

#[test]
fn no_submit_with_empty_fields() {
    for f in [form("", "a@b.co", "pw", "1"), form("tom", "", "pw", "1"), form("tom", "a@b.co", "", "1")] {
        let mut page = page_with_matching_passwords();
        let (render, actions) = page.update(RegisterMsg::Register(f));
        assert!(!render);
        assert!(actions.is_empty());
    }
}

#[test]
fn email_format_check() {
    let cases = [
        ("a@b.co", true),
        ("user.name-1_x@mail.example.com", true),
        ("a@b.c", false),
        ("ab.com", false),
        ("@b.com", false),
        ("a@.com", false),
        ("a@..com", true),
        ("a@b.c0m", false),
        ("a@@b.com", false),
        ("a@b.com\n", false),
        ("张@b.com", false),
        ("", false),
    ];
    for (email, ok) in cases {
        let mut page = Register::create();
        let (render, actions) = page.update(RegisterMsg::OnEmailChange(email.to_string()));
        assert!(render);
        assert!(actions.is_empty());
        assert!(page.email_is_modify);
        assert_eq!(page.email_format, ok, "address {:?}", email);
    }
}

#[test]
fn send_code_requires_valid_address() {
    let mut page = Register::create();
    let (render, actions) = page.update(RegisterMsg::SendCode("x@y.zz".to_string()));
    assert!(!render);
    assert!(actions.is_empty());

    page.update(RegisterMsg::OnEmailChange("x@y.zz".to_string()));
    let (render, actions) = page.update(RegisterMsg::SendCode("x@y.zz".to_string()));
    assert!(!render);
    assert_eq!(actions.len(), 2);
    assert!(matches!(&actions[0], RegisterAction::SendMail(m) if m == "x@y.zz"));
    assert!(matches!(&actions[1], RegisterAction::Deliver(RegisterMsg::SendCodeSuccess)));
}

#[test]
fn countdown_runs_sixty_seconds() {
    let mut page = Register::create();
    let (render, actions) = page.update(RegisterMsg::SendCodeSuccess);
    assert!(render);
    assert!(matches!(actions.as_slice(), [RegisterAction::StartCountdown]));
    assert_eq!(page.time, 60);
    assert!(page.is_code_send && page.code_timer);
    assert!(page.view().code_button_disabled);
    assert_eq!(page.view().code_button, "60s 后发送");
    for k in 1..60u8 {
        let (render, actions) = page.update(RegisterMsg::UpdateTime);
        assert!(render);
        assert!(actions.is_empty());
        assert_eq!(page.time, 60 - k);
        assert!(page.is_code_send && page.code_timer);
    }
    assert_eq!(page.view().code_button, "1s 后发送");
    let (render, actions) = page.update(RegisterMsg::UpdateTime);
    assert!(render);
    assert!(matches!(actions.as_slice(), [RegisterAction::StopCountdown]));
    assert_eq!(page.time, 0);
    assert!(!page.is_code_send && !page.code_timer);
    let v = page.view();
    assert!(!v.code_button_disabled);
    assert_eq!(v.code_button, "发送验证码");
}

#[test]
fn code_sent_again_restarts_countdown() {
    let mut page = Register::create();
    page.update(RegisterMsg::SendCodeSuccess);
    page.update(RegisterMsg::UpdateTime);
    page.update(RegisterMsg::UpdateTime);
    assert_eq!(page.time, 58);
    let (_, actions) = page.update(RegisterMsg::SendCodeSuccess);
    assert!(matches!(actions.as_slice(), [RegisterAction::StartCountdown]));
    assert_eq!(page.time, 60);
}

#[test]
fn request_status_and_navigation() {
    let mut page = Register::create();
    let (render, actions) = page.update(RegisterMsg::Request(RequestStatus::Pendding));
    assert!(render && actions.is_empty());
    let b = page.view().banner.unwrap();
    assert_eq!(b.class, "register-info box-shadow");
    assert_eq!(b.text, "正在注册");

    let (_, actions) = page.update(RegisterMsg::Request(RequestStatus::Success));
    assert!(matches!(actions.as_slice(), [RegisterAction::GoToLoginLater]));
    assert_eq!(page.view().banner.unwrap().text, "注册成功，正在跳转登录页面");

    page.update(RegisterMsg::Request(RequestStatus::Failed));
    assert_eq!(page.view().banner.unwrap().class, "register-error box-shadow");

    page.update(RegisterMsg::Request(RequestStatus::Default));
    assert!(page.view().banner.is_none());
}

#[test]
fn avatar_choice() {
    let mut page = Register::create();
    page.update(RegisterMsg::OnAvatarClick(2));
    assert_eq!(page.avatar, "./images/avatars/avatar3.png");
    let v = page.view();
    let active: Vec<bool> = v.avatars.iter().map(|a| a.active).collect();
    assert_eq!(active, vec![false, false, true]);
    assert_eq!(v.avatars[1].src, "./images/avatars/avatar2.png");
}

#[test]
fn password_strength() {
    let mut page = Register::create();
    page.update(RegisterMsg::OnPwdInput("password".to_string()));
    assert_eq!(page.pwd, "password");
    assert_eq!(page.pwd_strength, 0);
    assert!(page.view().pwd_meter.is_none());

    page.update(RegisterMsg::OnPwdInput("Tr0ub4dour&3xQ!zv-correct-horse".to_string()));
    assert!(page.pwd_strength > 0);
    assert_eq!(page.pwd_strength % 25, 0);
    assert!(page.pwd_strength <= 100);
    assert_eq!(page.view().pwd_meter, Some(page.pwd_strength.to_string()));

    page.update(RegisterMsg::OnPwdInput(String::new()));
    assert_eq!(page.pwd_strength, 0);
}

#[test]
fn repeated_password_mark() {
    let mut page = Register::create();
    assert!(page.view().pwd_mark.is_none());
    page.update(RegisterMsg::OnPwdInput("abc".to_string()));
    page.update(RegisterMsg::OnRePwdInput("ab".to_string()));
    let m = page.view().pwd_mark.unwrap();
    assert_eq!((m.symbol.as_str(), m.color.as_str()), ("×", "red"));
    page.update(RegisterMsg::OnRePwdInput("abc".to_string()));
    let m = page.view().pwd_mark.unwrap();
    assert_eq!((m.symbol.as_str(), m.color.as_str()), ("√", "green"));
}

#[test]
fn email_class() {
    let mut page = Register::create();
    assert_eq!(page.view().email_class, "");
    page.update(RegisterMsg::OnEmailChange("bad".to_string()));
    assert_eq!(page.view().email_class, "email-wrong");
    page.update(RegisterMsg::OnEmailChange("good@mail.org".to_string()));
    assert_eq!(page.view().email_class, "email-right");
}

#[test]
fn key_handling() {
    let mut page = Register::create();
    let (render, actions) = page.update(RegisterMsg::OnFormKeyDown("Enter".to_string()));
    assert!(!render);
    assert!(matches!(actions.as_slice(), [RegisterAction::PreventDefault]));
    let (render, actions) = page.update(RegisterMsg::OnFormKeyDown("a".to_string()));
    assert!(!render && actions.is_empty());
    let (render, actions) = page.update(RegisterMsg::OnEnterKeyDown);
    assert!(!render);
    assert!(matches!(actions.as_slice(), [RegisterAction::PreventDefault]));
    let (render, actions) = page.update(RegisterMsg::SendCodeFailed("timeout".to_string()));
    assert!(!render && actions.is_empty());
}
