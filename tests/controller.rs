use hypr::controller::{
    read_response, ActiveWindow, Color, Controller, Dismiss, Icon, Info, Message, Method, ResponseError, TimeMS,
    HYPRLAND_HYPRCTL_MAX_RESPONSE_BYTES,
};
use hypr::sock::{socket_path, SocketTypes};

#[test]
fn dispatch_encodes_with_its_arguments() {
    assert_eq!(Method::Dispatch("workspace 2".to_string()).encode(), "-j dispatch workspace 2");
}

#[test]
fn notify_encodes_icon_time_color_and_message() {
    let m = Method::Notify(Icon::Warning, TimeMS(3000), Color::RGB("ff0000".to_string()), Message::Default("hi".to_string()));
    assert_eq!(m.encode(), "-j warning 3000 rgb(ff0000) hi");
    let m = Method::Notify(
        Icon::Okay,
        TimeMS(0),
        Color::RGBA("ff0000cc".to_string()),
        Message::WithFontSize(18, "big news".to_string()),
    );
    assert_eq!(m.encode(), "-j ok 0 rgba(ff0000cc) fontsize:18 big news");
}

#[test]
fn dismiss_encodes_all_and_recent() {
    assert_eq!(Method::DismissNotify(Dismiss::All).encode(), "-j dismissnotify -1");
    assert_eq!(Method::DismissNotify(Dismiss::Recent(3)).encode(), "-j dismissnotify 3");
}

#[test]
fn info_queries_encode_lowercase_with_arguments() {
    assert_eq!(Method::Info(Info::ActiveWindow).encode(), "j/activewindow");
    assert_eq!(Method::Info(Info::Workspaces).encode(), "j/workspaces");
    assert_eq!(Method::Info(Info::ConfigErrors).encode(), "j/configerrors");
    assert_eq!(Method::Info(Info::Decorations(42)).encode(), "j/decorations 42");
    assert_eq!(Method::Info(Info::GetOption("general:border_size".to_string())).encode(), "j/getoption general:border_size");
}

#[test]
fn parts_render_as_their_templates() {
    assert_eq!(Icon::NoIcon.to_string(), "noicon");
    assert_eq!(Icon::Confused.to_string(), "confused");
    assert_eq!(TimeMS(4294967295).to_string(), "4294967295");
    assert_eq!(TimeMS(10).to_string(), "10");
    assert_eq!(Color::RGB("abc".to_string()).to_string(), "rgb(abc)");
    assert_eq!(Message::WithFontSize(9, "x".to_string()).to_string(), "fontsize:9 x");
    assert_eq!(Dismiss::Recent(0).to_string(), "0");
    assert_eq!(Info::RollingLog.to_string(), "rollinglog");
}

#[test]
fn response_at_the_bound_is_kept_whole() {
    let buf = vec![b'a'; HYPRLAND_HYPRCTL_MAX_RESPONSE_BYTES];
    let r = read_response(&buf).unwrap();
    assert_eq!(r.len(), 8192);
}

#[test]
fn response_over_the_bound_is_cut() {
    let mut buf = vec![b'a'; 8192];
    buf.extend_from_slice(b"tail");
    let r = read_response(&buf).unwrap();
    assert_eq!(r.len(), 8192);
    assert!(!r.contains('t'));
}

#[test]
fn response_text_is_decoded() {
    assert_eq!(read_response("{\"id\": 1, \"name\": \"é\"}".as_bytes()), Ok("{\"id\": 1, \"name\": \"é\"}".to_string()));
    assert_eq!(read_response(b""), Ok(String::new()));
    assert_eq!(read_response(&[0xff, 0x41]), Err(ResponseError::InvalidUtf8));
}

#[test]
fn socket_paths_follow_the_instance_layout() {
    assert_eq!(socket_path("/run/user/1000", "abc_123", SocketTypes::Controller), "/run/user/1000/hypr/abc_123/.socket.sock");
    assert_eq!(socket_path("/run/user/1000", "abc_123", SocketTypes::Listener), "/run/user/1000/hypr/abc_123/.socket2.sock");
    let c = Controller::new("/tmp", "sig");
    assert_eq!(c.socket_path(SocketTypes::Listener), "/tmp/hypr/sig/.socket2.sock");
}

#[test]
fn active_window_app_name_joins_class_and_title() {
    let w = ActiveWindow { class: "kitty".to_string(), title: "zsh".to_string() };
    assert_eq!(w.app_name(), "kitty / zsh");
}
