use vstd::prelude::*;
use vstd::string::*;
use vstd::utf8::{decode_utf8, valid_utf8};

use crate::sock::{socket_path, SocketTypes};
use crate::text::{decimal, push_decimal};

verus! {

/// The most bytes of a command response that are kept.
pub const HYPRLAND_HYPRCTL_MAX_RESPONSE_BYTES: usize = 8192;

/// The notification icons the compositor draws.
#[derive(Clone, Copy, PartialEq, Eq, Debug)]
pub enum Icon {
    NoIcon,
    Warning,
    Info,
    Hint,
    Error,
    Confused,
    Okay,
}

/// How long a notification stays, in milliseconds.
#[derive(Clone, Copy, PartialEq, Eq, Debug)]
pub struct TimeMS(pub u32);

/// The colour of a notification, as the text of its hexadecimal value.
#[derive(Clone, Debug, PartialEq, Eq)]
pub enum Color {
    RGB(String),
    RGBA(String),
}

/// The text of a notification, with or without its own font size.
#[derive(Clone, Debug, PartialEq, Eq)]
pub enum Message {
    Default(String),
    WithFontSize(u32, String),
}

/// Which notifications to dismiss.
#[derive(Clone, Copy, PartialEq, Eq, Debug)]
pub enum Dismiss {
    All,
    Recent(u32),
}

/// The read-only queries of the command socket.
#[derive(Clone, Debug, PartialEq, Eq)]
pub enum Info {
    Version,
    Monitors,
    Workspaces,
    ActiveWorkspace,
    WorkspaceRules,
    Clients,
    Devices,
    Decorations(u32),
    Binds,
    ActiveWindow,
    Layers,
    Splash,
    GetOption(String),
    CursorPos,
    Animations,
    Instances,
    Layouts,
    ConfigErrors,
    RollingLog,
    Locked,
}

/// A command for the command socket.
#[derive(Clone, Debug, PartialEq, Eq)]
pub enum Method {
    Dispatch(String),
    Notify(Icon, TimeMS, Color, Message),
    DismissNotify(Dismiss),
    Info(Info),
}

pub open spec fn icon_text(i: Icon) -> Seq<char> {
    match i {
        Icon::NoIcon => "noicon"@,
        Icon::Warning => "warning"@,
        Icon::Info => "info"@,
        Icon::Hint => "hint"@,
        Icon::Error => "error"@,
        Icon::Confused => "confused"@,
        Icon::Okay => "ok"@,
    }
}

pub open spec fn color_text(c: Color) -> Seq<char> {
    match c {
        Color::RGB(v) => "rgb("@ + v@ + ")"@,
        Color::RGBA(v) => "rgba("@ + v@ + ")"@,
    }
}

pub open spec fn message_text(m: Message) -> Seq<char> {
    match m {
        Message::Default(t) => t@,
        Message::WithFontSize(n, t) => "fontsize:"@ + decimal(n as nat) + " "@ + t@,
    }
}

pub open spec fn dismiss_text(d: Dismiss) -> Seq<char> {
    match d {
        Dismiss::All => "-1"@,
        Dismiss::Recent(n) => decimal(n as nat),
    }
}

/// The query's name in lower case, followed by its argument where it has one.
pub open spec fn info_text(i: Info) -> Seq<char> {
    match i {
        Info::Version => "version"@,
        Info::Monitors => "monitors"@,
        Info::Workspaces => "workspaces"@,
        Info::ActiveWorkspace => "activeworkspace"@,
        Info::WorkspaceRules => "workspacerules"@,
        Info::Clients => "clients"@,
        Info::Devices => "devices"@,
        Info::Decorations(id) => "decorations "@ + decimal(id as nat),
        Info::Binds => "binds"@,
        Info::ActiveWindow => "activewindow"@,
        Info::Layers => "layers"@,
        Info::Splash => "splash"@,
        Info::GetOption(name) => "getoption "@ + name@,
        Info::CursorPos => "cursorpos"@,
        Info::Animations => "animations"@,
        Info::Instances => "instances"@,
        Info::Layouts => "layouts"@,
        Info::ConfigErrors => "configerrors"@,
        Info::RollingLog => "rollinglog"@,
        Info::Locked => "locked"@,
    }
}

/// The wire text of a command.
pub open spec fn method_text(m: Method) -> Seq<char> {
    match m {
        Method::Dispatch(a) => "-j dispatch "@ + a@,
        Method::Notify(i, t, c, msg) => "-j "@ + icon_text(i) + " "@ + decimal(t.0 as nat) + " "@
            + color_text(c) + " "@ + message_text(msg),
        Method::DismissNotify(d) => "-j dismissnotify "@ + dismiss_text(d),
        Method::Info(i) => "j/"@ + info_text(i),
    }
}

impl Icon {
    pub fn write_to(&self, s: &mut String)
        ensures
            final(s)@ == old(s)@ + icon_text(*self),
    {
        match self {
            Icon::NoIcon => s.append("noicon"),
            Icon::Warning => s.append("warning"),
            Icon::Info => s.append("info"),
            Icon::Hint => s.append("hint"),
            Icon::Error => s.append("error"),
            Icon::Confused => s.append("confused"),
            Icon::Okay => s.append("ok"),
        }
    }

    /// The icon's name in lower case.
    pub fn to_string(&self) -> (r: String)
        ensures
            r@ == icon_text(*self),
    {
        let mut s = String::new();
        self.write_to(&mut s);
        assert(s@ =~= icon_text(*self));
        s
    }
}

impl TimeMS {
    /// The duration in decimal.
    pub fn to_string(&self) -> (r: String)
        ensures
            r@ == decimal(self.0 as nat),
    {
        let mut s = String::new();
        push_decimal(&mut s, self.0);
        assert(s@ =~= decimal(self.0 as nat));
        s
    }
}

impl Color {
    pub fn write_to(&self, s: &mut String)
        ensures
            final(s)@ == old(s)@ + color_text(*self),
    {
        match self {
            Color::RGB(v) => {
                s.append("rgb(");
                s.append(v.as_str());
                s.append(")");
            },
            Color::RGBA(v) => {
                s.append("rgba(");
                s.append(v.as_str());
                s.append(")");
            },
        }
        assert(final(s)@ =~= old(s)@ + color_text(*self));
    }

    /// `rgb(value)` or `rgba(value)`.
    pub fn to_string(&self) -> (r: String)
        ensures
            r@ == color_text(*self),
    {
        let mut s = String::new();
        self.write_to(&mut s);
        assert(s@ =~= color_text(*self));
        s
    }
}

impl Message {
    pub fn write_to(&self, s: &mut String)
        ensures
            final(s)@ == old(s)@ + message_text(*self),
    {
        match self {
            Message::Default(t) => {
                s.append(t.as_str());
            },
            Message::WithFontSize(n, t) => {
                s.append("fontsize:");
                push_decimal(s, *n);
                s.append(" ");
                s.append(t.as_str());
            },
        }
        assert(final(s)@ =~= old(s)@ + message_text(*self));
    }

    /// The text, preceded by `fontsize:n ` where a size is given.
    pub fn to_string(&self) -> (r: String)
        ensures
            r@ == message_text(*self),
    {
        let mut s = String::new();
        self.write_to(&mut s);
        assert(s@ =~= message_text(*self));
        s
    }
}

impl Dismiss {
    pub fn write_to(&self, s: &mut String)
        ensures
            final(s)@ == old(s)@ + dismiss_text(*self),
    {
        match self {
            Dismiss::All => s.append("-1"),
            Dismiss::Recent(n) => push_decimal(s, *n),
        }
    }

    /// `-1` for all notifications, else how many of the latest.
    pub fn to_string(&self) -> (r: String)
        ensures
            r@ == dismiss_text(*self),
    {
        let mut s = String::new();
        self.write_to(&mut s);
        assert(s@ =~= dismiss_text(*self));
        s
    }
}

impl Info {
    pub fn write_to(&self, s: &mut String)
        ensures
            final(s)@ == old(s)@ + info_text(*self),
    {
        match self {
            Info::Version => s.append("version"),
            Info::Monitors => s.append("monitors"),
            Info::Workspaces => s.append("workspaces"),
            Info::ActiveWorkspace => s.append("activeworkspace"),
            Info::WorkspaceRules => s.append("workspacerules"),
            Info::Clients => s.append("clients"),
            Info::Devices => s.append("devices"),
            Info::Decorations(id) => {
                s.append("decorations ");
                push_decimal(s, *id);
            },
            Info::Binds => s.append("binds"),
            Info::ActiveWindow => s.append("activewindow"),
            Info::Layers => s.append("layers"),
            Info::Splash => s.append("splash"),
            Info::GetOption(name) => {
                s.append("getoption ");
                s.append(name.as_str());
            },
            Info::CursorPos => s.append("cursorpos"),
            Info::Animations => s.append("animations"),
            Info::Instances => s.append("instances"),
            Info::Layouts => s.append("layouts"),
            Info::ConfigErrors => s.append("configerrors"),
            Info::RollingLog => s.append("rollinglog"),
            Info::Locked => s.append("locked"),
        }
        assert(final(s)@ =~= old(s)@ + info_text(*self));
    }

    /// The query's name in lower case, with its argument where it has one.
    pub fn to_string(&self) -> (r: String)
        ensures
            r@ == info_text(*self),
    {
        let mut s = String::new();
        self.write_to(&mut s);
        assert(s@ =~= info_text(*self));
        s
    }
}

impl Method {
    /// The text that the command socket takes for this command.
    pub fn encode(&self) -> (r: String)
        ensures
            r@ == method_text(*self),
    {
        let mut s = String::new();
        match self {
            Method::Dispatch(a) => {
                s.append("-j dispatch ");
                s.append(a.as_str());
            },
            Method::Notify(icon, time_ms, color, message) => {
                s.append("-j ");
                icon.write_to(&mut s);
                s.append(" ");
                push_decimal(&mut s, time_ms.0);
                s.append(" ");
                color.write_to(&mut s);
                s.append(" ");
                message.write_to(&mut s);
            },
            Method::DismissNotify(dismiss) => {
                s.append("-j dismissnotify ");
                dismiss.write_to(&mut s);
            },
            Method::Info(inf) => {
                s.append("j/");
                inf.write_to(&mut s);
            },
        }
        assert(s@ =~= method_text(*self));
        s
    }
}

/// Why a command response could not be read.
#[derive(Clone, Copy, PartialEq, Eq, Debug)]
pub enum ResponseError {
    /// The kept bytes are not valid UTF-8.
    InvalidUtf8,
}

/// The part of a response that is kept: its first bytes, up to the bound.
pub open spec fn bounded_response(b: Seq<u8>) -> Seq<u8> {
    if b.len() <= HYPRLAND_HYPRCTL_MAX_RESPONSE_BYTES {
        b
    } else {
        b.take(HYPRLAND_HYPRCTL_MAX_RESPONSE_BYTES as int)
    }
}

/// Relies on std::str::from_utf8: succeeds exactly on valid UTF-8, with the
/// characters that the bytes encode.
#[verifier::external_body]
fn utf8_text(b: &[u8]) -> (r: Option<String>)
    ensures
        match r {
            Some(s) => valid_utf8(b@) && s@ == decode_utf8(b@),
            None => !valid_utf8(b@),
        },
{
    match std::str::from_utf8(b) {
        Ok(s) => Some(s.to_string()),
        Err(_) => None,
    }
}

/// The text of a command response: the first bytes up to the bound, decoded
/// as UTF-8. Longer responses are cut at the bound, which is not an error.
pub fn read_response(buf: &[u8]) -> (r: Result<String, ResponseError>)
    ensures
        match r {
            Ok(s) => valid_utf8(bounded_response(buf@)) && s@ == decode_utf8(
                bounded_response(buf@),
            ),
            Err(e) => e == ResponseError::InvalidUtf8 && !valid_utf8(bounded_response(buf@)),
        },
{
    let n: usize = if buf.len() <= HYPRLAND_HYPRCTL_MAX_RESPONSE_BYTES {
        buf.len()
    } else {
        HYPRLAND_HYPRCTL_MAX_RESPONSE_BYTES
    };
    let kept = vstd::slice::slice_subrange(buf, 0, n);
    assert(kept@ =~= bounded_response(buf@));
    match utf8_text(kept) {
        Some(s) => Ok(s),
        None => Err(ResponseError::InvalidUtf8),
    }
}

/// Where the command socket of one compositor instance is.
pub struct Controller(pub String, pub String);

impl Controller {
    /// A controller for the instance `hypr_instance_signature` under the
    /// runtime directory `xdg_runtime_dir`.
    pub fn new(xdg_runtime_dir: &str, hypr_instance_signature: &str) -> (r: Self)
        ensures
            r.0@ == xdg_runtime_dir@,
            r.1@ == hypr_instance_signature@,
    {
        Controller(String::from_str(xdg_runtime_dir), String::from_str(hypr_instance_signature))
    }

    /// The path of this instance's socket of the given kind.
    pub fn socket_path(&self, kind: SocketTypes) -> (r: String)
        ensures
            r@ == crate::sock::socket_path_text(self.0@, self.1@, kind),
    {
        socket_path(self.0.as_str(), self.1.as_str(), kind)
    }
}

/// The active window, as the command socket describes it.
pub struct ActiveWindow {
    pub class: String,
    pub title: String,
}

impl ActiveWindow {
    /// The name shown for the active application: `class / title`.
    pub fn app_name(&self) -> (r: String)
        ensures
            r@ == self.class@ + " / "@ + self.title@,
    {
        let mut s = String::new();
        s.append(self.class.as_str());
        s.append(" / ");
        s.append(self.title.as_str());
        assert(s@ =~= self.class@ + " / "@ + self.title@);
        s
    }
}

/// The active workspace is described as any other workspace is.
pub type ActiveWorkspace = Workspace;

/// A workspace, as the command socket describes it.
pub struct Workspace {
    pub id: u8,
    pub name: String,
    pub monitor: String,
    pub monitor_id: u8,
    pub windows: u32,
    pub has_full_screen: bool,
    pub last_window: String,
    pub last_window_title: String,
}

} // verus!
