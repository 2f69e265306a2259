use vstd::prelude::*;

use crate::text::{
    bool_text, chars_of, decimal, parse_bool, parse_unsigned, parse_unsigned_range, string_of,
};

verus! {

/// One event of the compositor's broadcast socket.
#[derive(Debug, Clone, PartialEq, Eq)]
pub enum HyprctlEvents {
    Workspace { workspace_name: String },
    WorkspaceV2 { workspace_id: String, workspace_name: String },
    FocusedMon { mon_name: String, workspace_name: String },
    ActiveWindow { window_class: String, window_title: String },
    ActiveWindowV2 { window_address: String },
    FullScreen(bool),
    MonitorRemoved { monitor_name: String },
    MonitorAdded { monitor_name: String },
    MonitorAddedV2 { monitor_id: String, monitor_name: String, monitor_description: String },
    CreateWorkspace { workspace_name: String },
    CreateWorkspaceV2 { workspace_id: String, workspace_name: String },
    DestroyWorkspace { workspace_name: String },
    DestroyWorkspaceV2 { workspace_id: String, workspace_name: String },
    MoveWorkspace { workspace_name: String, mon_name: String },
    MoveWorkspaceV2 { workspace_id: String, workspace_name: String, mon_name: String },
    RenameWorkspace { workspace_id: String, new_name: String },
    ActiveSpecial { workspace_name: String, mon_name: String },
    ActiveLayout { keyboard_name: String, layout_name: String },
    OpenWindow {
        window_address: String,
        workspace_name: String,
        window_class: String,
        window_title: String,
    },
    CloseWindow { window_address: String },
    MoveWindow { window_address: String, workspace_name: String },
    MoveWindowV2 { window_address: String, workspace_id: String, workspace_name: String },
    OpenLayer { namespace: String },
    CloseLayer { namespace: String },
    Submap { submap_name: String },
    ChangeFloatingMode { window_address: String, floating: String },
    Urgent { window_address: String },
    Minimize { window_address: String, minimized: String },
    Screencast { state: u8, owner: u8 },
    WindowTitle { window_address: String },
    WindowTitleV2 { window_address: String, window_title: String },
    ToggleGroup { state: u8, handle: Vec<String> },
    MoveIntoGroup { window_address: String },
    MoveOutOfGroup { window_address: String },
    IgnoreGroupLock(u8),
    LockGroups(u8),
    ConfigReloaded,
    Pin { window_address: String, pin_state: String },
}

/// Why an event line could not be decoded.
#[derive(Debug, Clone, PartialEq, Eq)]
pub enum DecodeError {
    /// The event name is not one this decoder knows.
    UnsupportedEvent(String),
    /// The line has fewer fields than its event needs; holds the first missing index.
    MissingField(usize),
    /// The field at this index does not read as its declared type.
    InvalidFieldType(usize, String),
}

/// One field of an event, as a value.
pub enum FieldValue {
    Text(Seq<char>),
    Flag(bool),
    Byte(u8),
    Words(Seq<Seq<char>>),
}

/// What a decode comes to, in terms of plain values.
pub enum DecodeOutcome {
    Decoded(Seq<char>, Seq<FieldValue>),
    Unsupported(Seq<char>),
    Missing(nat),
    Invalid(nat, Seq<char>),
}

pub open spec fn views(v: Seq<String>) -> Seq<Seq<char>> {
    v.map_values(|x: String| x@)
}

/// A `>>` starts at index `i` of `s`.
pub open spec fn sep_at(s: Seq<char>, i: int) -> bool {
    0 <= i && i + 1 < s.len() && s[i] == '>' && s[i + 1] == '>'
}

pub open spec fn has_no_sep(s: Seq<char>) -> bool {
    forall|i: int| !#[trigger] sep_at(s, i)
}

/// Where the first `>>` of `s` starts.
pub open spec fn first_sep(s: Seq<char>) -> int {
    choose|k: int| sep_at(s, k) && has_no_sep(#[trigger] s.take(k + 1))
}

/// The event name: the line up to its first `>>`, or all of it.
pub open spec fn line_name(s: Seq<char>) -> Seq<char> {
    if has_no_sep(s) {
        s
    } else {
        s.take(first_sep(s))
    }
}

/// The argument payload: what follows the first `>>`, if there is one.
pub open spec fn line_payload(s: Seq<char>) -> Option<Seq<char>> {
    if has_no_sep(s) {
        None
    } else {
        Some(s.skip(first_sep(s) + 2))
    }
}

pub open spec fn no_comma(s: Seq<char>) -> bool {
    forall|i: int| 0 <= i < s.len() ==> #[trigger] s[i] != ','
}

/// Where the first comma of `p` stands.
pub open spec fn first_comma(p: Seq<char>) -> int {
    choose|c: int| 0 <= c < p.len() && p[c] == ',' && no_comma(#[trigger] p.take(c))
}

/// `p` split at commas into at most `n` pieces; the last keeps any further commas.
pub open spec fn split_fields(p: Seq<char>, n: nat) -> Seq<Seq<char>>
    decreases n,
{
    if n <= 1 || no_comma(p) {
        seq![p]
    } else {
        seq![p.take(first_comma(p))] + split_fields(p.skip(first_comma(p) + 1), (n - 1) as nat)
    }
}

proof fn lemma_first_comma(p: Seq<char>, c: int)
    requires
        0 <= c < p.len(),
        p[c] == ',',
        no_comma(p.take(c)),
    ensures
        first_comma(p) == c,
        !no_comma(p),
{
    let d = first_comma(p);
    assert(0 <= d < p.len() && p[d] == ',' && no_comma(p.take(d)));
    if d < c {
        assert(p.take(c)[d] == ',');
    } else if c < d {
        assert(p.take(d)[c] == ',');
    }
}

proof fn lemma_first_sep(s: Seq<char>, k: int)
    requires
        sep_at(s, k),
        has_no_sep(s.take(k + 1)),
    ensures
        first_sep(s) == k,
        !has_no_sep(s),
{
    assert(!has_no_sep(s)) by {
        assert(sep_at(s, k));
    }
    let d = first_sep(s);
    assert(sep_at(s, d) && has_no_sep(s.take(d + 1)));
    if d < k {
        assert(sep_at(s.take(k + 1), d));
    } else if k < d {
        assert(sep_at(s.take(d + 1), k));
    }
}

/// The index of the first comma of `v` at or after `from`.
fn find_comma(v: &Vec<char>, from: usize) -> (r: Option<usize>)
    requires
        from <= v.len(),
    ensures
        match r {
            Some(c) => from <= c < v.len() && v@[c as int] == ',' && no_comma(
                v@.subrange(from as int, c as int),
            ),
            None => no_comma(v@.skip(from as int)),
        },
{
    let mut i: usize = from;
    while i < v.len()
        invariant
            from <= i <= v.len(),
            no_comma(v@.subrange(from as int, i as int)),
        decreases v.len() - i,
    {
        if v[i] == ',' {
            return Some(i);
        }
        i = i + 1;
        assert(no_comma(v@.subrange(from as int, i as int))) by {
            assert forall|j: int| 0 <= j < i - from implies #[trigger] v@.subrange(
                from as int,
                i as int,
            )[j] != ',' by {
                assert(v@.subrange(from as int, i as int)[j] == v@[from + j]);
                if j < i - 1 - from {
                    assert(v@.subrange(from as int, i - 1)[j] == v@[from + j]);
                }
            }
        }
    }
    assert(v@.subrange(from as int, i as int) =~= v@.skip(from as int));
    None
}

/// The index of the first `>>` of `v`.
fn find_sep(v: &Vec<char>) -> (r: Option<usize>)
    ensures
        match r {
            Some(k) => sep_at(v@, k as int) && has_no_sep(v@.take(k + 1)),
            None => has_no_sep(v@),
        },
{
    let mut i: usize = 0;
    while i < v.len() && i + 1 < v.len()
        invariant
            i <= v.len(),
            forall|j: int| 0 <= j < i ==> !#[trigger] sep_at(v@, j),
        decreases v.len() - i,
    {
        if v[i] == '>' && v[i + 1] == '>' {
            assert forall|j: int| !#[trigger] sep_at(v@.take(i + 1), j) by {
                if sep_at(v@.take(i + 1), j) {
                    assert(sep_at(v@, j));
                }
            }
            return Some(i);
        }
        i = i + 1;
    }
    None
}

/// `v[start..]` split at commas into at most `n` pieces.
fn split_fields_from(v: &Vec<char>, start: usize, n: usize) -> (r: Vec<String>)
    requires
        start <= v.len(),
        n >= 1,
    ensures
        views(r@) == split_fields(v@.skip(start as int), n as nat),
        r.len() <= n,
{
    let mut out: Vec<String> = Vec::new();
    let mut pos: usize = start;
    let mut done = false;
    while !done && out.len() + 1 < n
        invariant
            start <= pos <= v.len(),
            out.len() < n,
            done ==> no_comma(v@.skip(pos as int)),
            views(out@) + split_fields(v@.skip(pos as int), (n - out.len()) as nat)
                == split_fields(v@.skip(start as int), n as nat),
        decreases n - out.len() + (if done { 0int } else { 1int }),
    {
        match find_comma(v, pos) {
            None => {
                done = true;
            },
            Some(c) => {
                let piece = string_of(v, pos, c);
                let ghost s = v@.skip(pos as int);
                let ghost m = (n - out.len()) as nat;
                proof {
                    assert(s.take(c - pos) =~= v@.subrange(pos as int, c as int));
                    lemma_first_comma(s, c - pos);
                    assert(s.skip(c - pos + 1) =~= v@.skip(c + 1));
                    assert(split_fields(s, m) == seq![piece@] + split_fields(
                        v@.skip(c + 1),
                        (m - 1) as nat,
                    ));
                }
                let ghost before = out@;
                out.push(piece);
                pos = c + 1;
                proof {
                    assert(views(out@) =~= views(before) + seq![piece@]);
                    assert(views(out@) + split_fields(v@.skip(pos as int), (n - out.len()) as nat)
                        =~= views(before) + split_fields(s, m));
                }
            },
        }
    }
    let ghost before = out@;
    let ghost m = (n - out.len()) as nat;
    let last = string_of(v, pos, v.len());
    assert(last@ =~= v@.skip(pos as int));
    assert(split_fields(v@.skip(pos as int), m) == seq![last@]);
    out.push(last);
    assert(views(out@) =~= views(before) + seq![last@]);
    out
}

/// The protocol name of an event.
pub open spec fn event_name(e: HyprctlEvents) -> Seq<char> {
    match e {
        HyprctlEvents::Workspace { .. } => "workspace"@,
        HyprctlEvents::WorkspaceV2 { .. } => "workspacev2"@,
        HyprctlEvents::FocusedMon { .. } => "focusedmon"@,
        HyprctlEvents::ActiveWindow { .. } => "activewindow"@,
        HyprctlEvents::ActiveWindowV2 { .. } => "activewindowv2"@,
        HyprctlEvents::FullScreen(..) => "fullscreen"@,
        HyprctlEvents::MonitorRemoved { .. } => "monitorremoved"@,
        HyprctlEvents::MonitorAdded { .. } => "monitoradded"@,
        HyprctlEvents::MonitorAddedV2 { .. } => "monitoraddedv2"@,
        HyprctlEvents::CreateWorkspace { .. } => "createworkspace"@,
        HyprctlEvents::CreateWorkspaceV2 { .. } => "createworkspacev2"@,
        HyprctlEvents::DestroyWorkspace { .. } => "destroyworkspace"@,
        HyprctlEvents::DestroyWorkspaceV2 { .. } => "destroyworkspacev2"@,
        HyprctlEvents::MoveWorkspace { .. } => "moveworkspace"@,
        HyprctlEvents::MoveWorkspaceV2 { .. } => "moveworkspacev2"@,
        HyprctlEvents::RenameWorkspace { .. } => "renameworkspace"@,
        HyprctlEvents::ActiveSpecial { .. } => "activespecial"@,
        HyprctlEvents::ActiveLayout { .. } => "activelayout"@,
        HyprctlEvents::OpenWindow { .. } => "openwindow"@,
        HyprctlEvents::CloseWindow { .. } => "closewindow"@,
        HyprctlEvents::MoveWindow { .. } => "movewindow"@,
        HyprctlEvents::MoveWindowV2 { .. } => "movewindowv2"@,
        HyprctlEvents::OpenLayer { .. } => "openlayer"@,
        HyprctlEvents::CloseLayer { .. } => "closelayer"@,
        HyprctlEvents::Submap { .. } => "submap"@,
        HyprctlEvents::ChangeFloatingMode { .. } => "changefloatingmode"@,
        HyprctlEvents::Urgent { .. } => "urgent"@,
        HyprctlEvents::Minimize { .. } => "minimize"@,
        HyprctlEvents::Screencast { .. } => "screencast"@,
        HyprctlEvents::WindowTitle { .. } => "windowtitle"@,
        HyprctlEvents::WindowTitleV2 { .. } => "windowtitlev2"@,
        HyprctlEvents::ToggleGroup { .. } => "togglegroup"@,
        HyprctlEvents::MoveIntoGroup { .. } => "moveintogroup"@,
        HyprctlEvents::MoveOutOfGroup { .. } => "moveoutofgroup"@,
        HyprctlEvents::IgnoreGroupLock(..) => "ignore_grouplock"@,
        HyprctlEvents::LockGroups(..) => "lockgroups"@,
        HyprctlEvents::ConfigReloaded => "configreloaded"@,
        HyprctlEvents::Pin { .. } => "pin"@,
    }
}

/// The fields of an event, in wire order.
pub open spec fn event_fields(e: HyprctlEvents) -> Seq<FieldValue> {
    match e {
        HyprctlEvents::Workspace { workspace_name } => seq![FieldValue::Text(workspace_name@)],
        HyprctlEvents::WorkspaceV2 { workspace_id, workspace_name } => seq![FieldValue::Text(workspace_id@), FieldValue::Text(workspace_name@)],
        HyprctlEvents::FocusedMon { mon_name, workspace_name } => seq![FieldValue::Text(mon_name@), FieldValue::Text(workspace_name@)],
        HyprctlEvents::ActiveWindow { window_class, window_title } => seq![FieldValue::Text(window_class@), FieldValue::Text(window_title@)],
        HyprctlEvents::ActiveWindowV2 { window_address } => seq![FieldValue::Text(window_address@)],
        HyprctlEvents::FullScreen(b) => seq![FieldValue::Flag(b)],
        HyprctlEvents::MonitorRemoved { monitor_name } => seq![FieldValue::Text(monitor_name@)],
        HyprctlEvents::MonitorAdded { monitor_name } => seq![FieldValue::Text(monitor_name@)],
        HyprctlEvents::MonitorAddedV2 { monitor_id, monitor_name, monitor_description } => seq![FieldValue::Text(monitor_id@), FieldValue::Text(monitor_name@), FieldValue::Text(monitor_description@)],
        HyprctlEvents::CreateWorkspace { workspace_name } => seq![FieldValue::Text(workspace_name@)],
        HyprctlEvents::CreateWorkspaceV2 { workspace_id, workspace_name } => seq![FieldValue::Text(workspace_id@), FieldValue::Text(workspace_name@)],
        HyprctlEvents::DestroyWorkspace { workspace_name } => seq![FieldValue::Text(workspace_name@)],
        HyprctlEvents::DestroyWorkspaceV2 { workspace_id, workspace_name } => seq![FieldValue::Text(workspace_id@), FieldValue::Text(workspace_name@)],
        HyprctlEvents::MoveWorkspace { workspace_name, mon_name } => seq![FieldValue::Text(workspace_name@), FieldValue::Text(mon_name@)],
        HyprctlEvents::MoveWorkspaceV2 { workspace_id, workspace_name, mon_name } => seq![FieldValue::Text(workspace_id@), FieldValue::Text(workspace_name@), FieldValue::Text(mon_name@)],
        HyprctlEvents::RenameWorkspace { workspace_id, new_name } => seq![FieldValue::Text(workspace_id@), FieldValue::Text(new_name@)],
        HyprctlEvents::ActiveSpecial { workspace_name, mon_name } => seq![FieldValue::Text(workspace_name@), FieldValue::Text(mon_name@)],
        HyprctlEvents::ActiveLayout { keyboard_name, layout_name } => seq![FieldValue::Text(keyboard_name@), FieldValue::Text(layout_name@)],
        HyprctlEvents::OpenWindow { window_address, workspace_name, window_class, window_title } => seq![FieldValue::Text(window_address@), FieldValue::Text(workspace_name@), FieldValue::Text(window_class@), FieldValue::Text(window_title@)],
        HyprctlEvents::CloseWindow { window_address } => seq![FieldValue::Text(window_address@)],
        HyprctlEvents::MoveWindow { window_address, workspace_name } => seq![FieldValue::Text(window_address@), FieldValue::Text(workspace_name@)],
        HyprctlEvents::MoveWindowV2 { window_address, workspace_id, workspace_name } => seq![FieldValue::Text(window_address@), FieldValue::Text(workspace_id@), FieldValue::Text(workspace_name@)],
        HyprctlEvents::OpenLayer { namespace } => seq![FieldValue::Text(namespace@)],
        HyprctlEvents::CloseLayer { namespace } => seq![FieldValue::Text(namespace@)],
        HyprctlEvents::Submap { submap_name } => seq![FieldValue::Text(submap_name@)],
        HyprctlEvents::ChangeFloatingMode { window_address, floating } => seq![FieldValue::Text(window_address@), FieldValue::Text(floating@)],
        HyprctlEvents::Urgent { window_address } => seq![FieldValue::Text(window_address@)],
        HyprctlEvents::Minimize { window_address, minimized } => seq![FieldValue::Text(window_address@), FieldValue::Text(minimized@)],
        HyprctlEvents::Screencast { state, owner } => seq![FieldValue::Byte(state), FieldValue::Byte(owner)],
        HyprctlEvents::WindowTitle { window_address } => seq![FieldValue::Text(window_address@)],
        HyprctlEvents::WindowTitleV2 { window_address, window_title } => seq![FieldValue::Text(window_address@), FieldValue::Text(window_title@)],
        HyprctlEvents::ToggleGroup { state, handle } => seq![FieldValue::Byte(state), FieldValue::Words(views(handle@))],
        HyprctlEvents::MoveIntoGroup { window_address } => seq![FieldValue::Text(window_address@)],
        HyprctlEvents::MoveOutOfGroup { window_address } => seq![FieldValue::Text(window_address@)],
        HyprctlEvents::IgnoreGroupLock(n) => seq![FieldValue::Byte(n)],
        HyprctlEvents::LockGroups(n) => seq![FieldValue::Byte(n)],
        HyprctlEvents::ConfigReloaded => seq![],
        HyprctlEvents::Pin { window_address, pin_state } => seq![FieldValue::Text(window_address@), FieldValue::Text(pin_state@)],
    }
}

/// How many fields the event of this name carries, for the names the decoder knows.
pub open spec fn arity(name: Seq<char>) -> Option<nat> {
    if name == "workspace"@ {
        Some(1)
    }
    else if name == "workspacev2"@ {
        Some(2)
    }
    else if name == "focusedmon"@ {
        Some(2)
    }
    else if name == "activewindow"@ {
        Some(2)
    }
    else if name == "activewindowv2"@ {
        Some(1)
    }
    else if name == "fullscreen"@ {
        Some(1)
    }
    else if name == "monitorremoved"@ {
        Some(1)
    }
    else if name == "monitoradded"@ {
        Some(1)
    }
    else if name == "monitoraddedv2"@ {
        Some(3)
    }
    else if name == "createworkspace"@ {
        Some(1)
    }
    else if name == "createworkspacev2"@ {
        Some(2)
    }
    else if name == "destroyworkspace"@ {
        Some(1)
    }
    else if name == "destroyworkspacev2"@ {
        Some(2)
    }
    else if name == "moveworkspace"@ {
        Some(2)
    }
    else if name == "moveworkspacev2"@ {
        Some(3)
    }
    else if name == "renameworkspace"@ {
        Some(2)
    }
    else if name == "openlayer"@ {
        Some(1)
    }
    else if name == "closelayer"@ {
        Some(1)
    }
    else if name == "changefloatingmode"@ {
        Some(2)
    }
    else if name == "ignore_grouplock"@ {
        Some(1)
    }
    else if name == "lockgroups"@ {
        Some(1)
    }
 else {
        None
    }
}

/// Whether `name` is the text of `lit`.
fn name_is(name: &String, lit: &str) -> (r: bool)
    ensures
        r == (name@ == lit@),
{
    let l = String::from_str(lit);
    *name == l
}

/// The number of fields of the named event, if the decoder knows the name.
fn arity_of(name: &String) -> (r: Option<usize>)
    ensures
        match r {
            Some(n) => arity(name@) == Some(n as nat),
            None => arity(name@) is None,
        },
{
    if name_is(name, "workspace") {
        Some(1)
    }
    else if name_is(name, "workspacev2") {
        Some(2)
    }
    else if name_is(name, "focusedmon") {
        Some(2)
    }
    else if name_is(name, "activewindow") {
        Some(2)
    }
    else if name_is(name, "activewindowv2") {
        Some(1)
    }
    else if name_is(name, "fullscreen") {
        Some(1)
    }
    else if name_is(name, "monitorremoved") {
        Some(1)
    }
    else if name_is(name, "monitoradded") {
        Some(1)
    }
    else if name_is(name, "monitoraddedv2") {
        Some(3)
    }
    else if name_is(name, "createworkspace") {
        Some(1)
    }
    else if name_is(name, "createworkspacev2") {
        Some(2)
    }
    else if name_is(name, "destroyworkspace") {
        Some(1)
    }
    else if name_is(name, "destroyworkspacev2") {
        Some(2)
    }
    else if name_is(name, "moveworkspace") {
        Some(2)
    }
    else if name_is(name, "moveworkspacev2") {
        Some(3)
    }
    else if name_is(name, "renameworkspace") {
        Some(2)
    }
    else if name_is(name, "openlayer") {
        Some(1)
    }
    else if name_is(name, "closelayer") {
        Some(1)
    }
    else if name_is(name, "changefloatingmode") {
        Some(2)
    }
    else if name_is(name, "ignore_grouplock") {
        Some(1)
    }
    else if name_is(name, "lockgroups") {
        Some(1)
    }
 else {
        None
    }
}

/// The event of a known name whose fields are all text.
fn build_text_event(name: &String, texts: &Vec<String>) -> (e: HyprctlEvents)
    requires
        arity(name@) == Some(texts.len() as nat),
        !is_typed_name(name@),
    ensures
        event_name(e) == name@,
        event_fields(e) == views(texts@).map_values(|t: Seq<char>| FieldValue::Text(t)),
{
    let e = 
if name_is(name, "workspace") {
        HyprctlEvents::Workspace {
            workspace_name: texts[0].clone(),
        }
    }
 else if name_is(name, "workspacev2") {
        HyprctlEvents::WorkspaceV2 {
            workspace_id: texts[0].clone(),
            workspace_name: texts[1].clone(),
        }
    }
 else if name_is(name, "focusedmon") {
        HyprctlEvents::FocusedMon {
            mon_name: texts[0].clone(),
            workspace_name: texts[1].clone(),
        }
    }
 else if name_is(name, "activewindow") {
        HyprctlEvents::ActiveWindow {
            window_class: texts[0].clone(),
            window_title: texts[1].clone(),
        }
    }
 else if name_is(name, "activewindowv2") {
        HyprctlEvents::ActiveWindowV2 {
            window_address: texts[0].clone(),
        }
    }
 else if name_is(name, "monitorremoved") {
        HyprctlEvents::MonitorRemoved {
            monitor_name: texts[0].clone(),
        }
    }
 else if name_is(name, "monitoradded") {
        HyprctlEvents::MonitorAdded {
            monitor_name: texts[0].clone(),
        }
    }
 else if name_is(name, "monitoraddedv2") {
        HyprctlEvents::MonitorAddedV2 {
            monitor_id: texts[0].clone(),
            monitor_name: texts[1].clone(),
            monitor_description: texts[2].clone(),
        }
    }
 else if name_is(name, "createworkspace") {
        HyprctlEvents::CreateWorkspace {
            workspace_name: texts[0].clone(),
        }
    }
 else if name_is(name, "createworkspacev2") {
        HyprctlEvents::CreateWorkspaceV2 {
            workspace_id: texts[0].clone(),
            workspace_name: texts[1].clone(),
        }
    }
 else if name_is(name, "destroyworkspace") {
        HyprctlEvents::DestroyWorkspace {
            workspace_name: texts[0].clone(),
        }
    }
 else if name_is(name, "destroyworkspacev2") {
        HyprctlEvents::DestroyWorkspaceV2 {
            workspace_id: texts[0].clone(),
            workspace_name: texts[1].clone(),
        }
    }
 else if name_is(name, "moveworkspace") {
        HyprctlEvents::MoveWorkspace {
            workspace_name: texts[0].clone(),
            mon_name: texts[1].clone(),
        }
    }
 else if name_is(name, "moveworkspacev2") {
        HyprctlEvents::MoveWorkspaceV2 {
            workspace_id: texts[0].clone(),
            workspace_name: texts[1].clone(),
            mon_name: texts[2].clone(),
        }
    }
 else if name_is(name, "renameworkspace") {
        HyprctlEvents::RenameWorkspace {
            workspace_id: texts[0].clone(),
            new_name: texts[1].clone(),
        }
    }
 else if name_is(name, "openlayer") {
        HyprctlEvents::OpenLayer {
            namespace: texts[0].clone(),
        }
    }
 else if name_is(name, "closelayer") {
        HyprctlEvents::CloseLayer {
            namespace: texts[0].clone(),
        }
    }
 else if name_is(name, "changefloatingmode") {
        HyprctlEvents::ChangeFloatingMode {
            window_address: texts[0].clone(),
            floating: texts[1].clone(),
        }
    }
 else {
        HyprctlEvents::ConfigReloaded
    };
    assert(event_fields(e) =~= views(texts@).map_values(|t: Seq<char>| FieldValue::Text(t)));
    e
}

/// Names of the events whose single field is not text.
pub open spec fn is_typed_name(name: Seq<char>) -> bool {
    name == "fullscreen"@ || name == "ignore_grouplock"@ || name == "lockgroups"@
}

/// The fields of a line: none where the line has no payload.
pub open spec fn line_fields(line: Seq<char>, n: nat) -> Seq<Seq<char>> {
    match line_payload(line) {
        Some(p) => split_fields(p, n),
        None => Seq::empty(),
    }
}

/// The event of a known name built from its field texts.
pub open spec fn build_spec(name: Seq<char>, texts: Seq<Seq<char>>) -> DecodeOutcome {
    if name == "fullscreen"@ {
        match parse_bool(texts[0]) {
            Some(b) => DecodeOutcome::Decoded(name, seq![FieldValue::Flag(b)]),
            None => DecodeOutcome::Invalid(0, texts[0]),
        }
    } else if name == "ignore_grouplock"@ || name == "lockgroups"@ {
        match parse_unsigned(texts[0], 255) {
            Some(n) => DecodeOutcome::Decoded(name, seq![FieldValue::Byte(n as u8)]),
            None => DecodeOutcome::Invalid(0, texts[0]),
        }
    } else {
        DecodeOutcome::Decoded(name, texts.map_values(|t: Seq<char>| FieldValue::Text(t)))
    }
}

/// What decoding the line `line` comes to.
pub open spec fn decode_spec(line: Seq<char>) -> DecodeOutcome {
    let name = line_name(line);
    match arity(name) {
        None => DecodeOutcome::Unsupported(name),
        Some(n) => {
            let texts = line_fields(line, n);
            if texts.len() < n {
                DecodeOutcome::Missing(texts.len())
            } else {
                build_spec(name, texts)
            }
        },
    }
}

/// A decode result, in terms of plain values.
pub open spec fn outcome_of(r: Result<HyprctlEvents, DecodeError>) -> DecodeOutcome {
    match r {
        Ok(e) => DecodeOutcome::Decoded(event_name(e), event_fields(e)),
        Err(DecodeError::UnsupportedEvent(name)) => DecodeOutcome::Unsupported(name@),
        Err(DecodeError::MissingField(i)) => DecodeOutcome::Missing(i as nat),
        Err(DecodeError::InvalidFieldType(i, raw)) => DecodeOutcome::Invalid(i as nat, raw@),
    }
}

/// The event of a known name built from its field texts.
fn build_event(name: &String, texts: &Vec<String>) -> (r: Result<HyprctlEvents, DecodeError>)
    requires
        arity(name@) == Some(texts.len() as nat),
    ensures
        outcome_of(r) == build_spec(name@, views(texts@)),
{
    if name_is(name, "fullscreen") {
        let t = &texts[0];
        if name_is(t, "true") {
            Ok(HyprctlEvents::FullScreen(true))
        } else if name_is(t, "false") {
            Ok(HyprctlEvents::FullScreen(false))
        } else {
            Err(DecodeError::InvalidFieldType(0, t.clone()))
        }
    } else if name_is(name, "ignore_grouplock") || name_is(name, "lockgroups") {
        let t = &texts[0];
        let cs = chars_of(t.as_str());
        assert(cs@.subrange(0, cs@.len() as int) =~= cs@);
        match parse_unsigned_range(&cs, 0, cs.len(), 255) {
            Some(n) => {
                let b = n as u8;
                if name_is(name, "lockgroups") {
                    Ok(HyprctlEvents::LockGroups(b))
                } else {
                    Ok(HyprctlEvents::IgnoreGroupLock(b))
                }
            },
            None => Err(DecodeError::InvalidFieldType(0, t.clone())),
        }
    } else {
        let e = build_text_event(name, texts);
        assert(views(texts@).map_values(|t: Seq<char>| FieldValue::Text(t)) =~= event_fields(e));
        Ok(e)
    }
}

impl HyprctlEvents {
    /// Decodes one line of the event socket, `name>>field0,field1,...`.
    ///
    /// The name runs to the first `>>`; the payload after it is split at
    /// commas into exactly as many pieces as the event has fields, so the last
    /// field keeps any commas of its own. Never panics: an unknown name, a
    /// missing field or a field of the wrong type is an error value.
    pub fn decode_from_string(other: String) -> (r: Result<Self, DecodeError>)
        ensures
            outcome_of(r) == decode_spec(other@),
    {
        let chars = chars_of(other.as_str());
        let sep = find_sep(&chars);
        let name_end: usize = match sep {
            Some(k) => k,
            None => chars.len(),
        };
        let name = string_of(&chars, 0, name_end);
        proof {
            match sep {
                Some(k) => {
                    lemma_first_sep(chars@, k as int);
                },
                None => {
                    assert(chars@.subrange(0, chars@.len() as int) =~= chars@);
                },
            }
            assert(name@ == line_name(other@));
        }
        let n = match arity_of(&name) {
            Some(n) => n,
            None => {
                return Err(DecodeError::UnsupportedEvent(name));
            },
        };
        let texts: Vec<String> = match sep {
            Some(k) => split_fields_from(&chars, k + 2, n),
            None => Vec::new(),
        };
        proof {
            assert(views(texts@) =~= line_fields(other@, n as nat));
        }
        if texts.len() < n {
            return Err(DecodeError::MissingField(texts.len()));
        }
        build_event(&name, &texts)
    }
}

/// `fs` joined with `sep` between neighbours.
pub open spec fn join_with(fs: Seq<Seq<char>>, sep: char) -> Seq<char>
    decreases fs.len(),
{
    if fs.len() == 0 {
        Seq::empty()
    } else if fs.len() == 1 {
        fs[0]
    } else {
        fs[0] + seq![sep] + join_with(fs.skip(1), sep)
    }
}

/// The wire text of one field.
pub open spec fn field_text(f: FieldValue) -> Seq<char> {
    match f {
        FieldValue::Text(t) => t,
        FieldValue::Flag(b) => bool_text(b),
        FieldValue::Byte(n) => decimal(n as nat),
        FieldValue::Words(ws) => join_with(ws, ' '),
    }
}

/// The line that the event socket sends for `e`.
pub open spec fn event_line(e: HyprctlEvents) -> Seq<char> {
    event_name(e) + ">>"@ + join_with(event_fields(e).map_values(|f: FieldValue| field_text(f)), ',')
}

proof fn lemma_split_join(fs: Seq<Seq<char>>)
    requires
        fs.len() >= 1,
        forall|i: int| 0 <= i < fs.len() - 1 ==> no_comma(#[trigger] fs[i]),
    ensures
        split_fields(join_with(fs, ','), fs.len()) == fs,
    decreases fs.len(),
{
    if fs.len() == 1 {
        assert(seq![fs[0]] =~= fs);
    } else {
        let p = join_with(fs, ',');
        let c = fs[0].len() as int;
        assert(no_comma(fs[0]));
        assert(p.take(c) =~= fs[0]);
        lemma_first_comma(p, c);
        let rest = fs.skip(1);
        assert(p.skip(c + 1) =~= join_with(rest, ','));
        assert forall|i: int| 0 <= i < rest.len() - 1 implies no_comma(#[trigger] rest[i]) by {
            assert(rest[i] == fs[i + 1]);
        }
        lemma_split_join(rest);
        assert(seq![fs[0]] + rest =~= fs);
    }
}

/// Decoding the line that the event socket sends for an event gives that
/// event back, for every event the decoder knows, provided that no field but
/// the last holds a comma.
pub proof fn lemma_decode_round_trip(e: HyprctlEvents)
    requires
        arity(event_name(e)) is Some,
        forall|i: int|
            0 <= i < event_fields(e).len() - 1 ==> no_comma(
                #[trigger] field_text(event_fields(e)[i]),
            ),
    ensures
        decode_spec(event_line(e)) == DecodeOutcome::Decoded(event_name(e), event_fields(e)),
{
    reveal_strlit("workspace");
    reveal_strlit("workspacev2");
    reveal_strlit("focusedmon");
    reveal_strlit("activewindow");
    reveal_strlit("activewindowv2");
    reveal_strlit("fullscreen");
    reveal_strlit("monitorremoved");
    reveal_strlit("monitoradded");
    reveal_strlit("monitoraddedv2");
    reveal_strlit("createworkspace");
    reveal_strlit("createworkspacev2");
    reveal_strlit("destroyworkspace");
    reveal_strlit("destroyworkspacev2");
    reveal_strlit("moveworkspace");
    reveal_strlit("moveworkspacev2");
    reveal_strlit("renameworkspace");
    reveal_strlit("openlayer");
    reveal_strlit("closelayer");
    reveal_strlit("changefloatingmode");
    reveal_strlit("ignore_grouplock");
    reveal_strlit("lockgroups");
    reveal_strlit("activespecial");
    reveal_strlit("activelayout");
    reveal_strlit("openwindow");
    reveal_strlit("closewindow");
    reveal_strlit("movewindow");
    reveal_strlit("movewindowv2");
    reveal_strlit("submap");
    reveal_strlit("urgent");
    reveal_strlit("minimize");
    reveal_strlit("screencast");
    reveal_strlit("windowtitle");
    reveal_strlit("windowtitlev2");
    reveal_strlit("togglegroup");
    reveal_strlit("moveintogroup");
    reveal_strlit("moveoutofgroup");
    reveal_strlit("configreloaded");
    reveal_strlit("pin");
    reveal_strlit(">>");
    reveal_strlit("true");
    reveal_strlit("false");
    assert("true"@.len() != "false"@.len());
    let name = event_name(e);
    let fields = event_fields(e);
    let texts = fields.map_values(|f: FieldValue| field_text(f));
    let line = event_line(e);
    let k = name.len() as int;
    match e {
        HyprctlEvents::Workspace { .. } => {
            assert(fields.len() == arity(name).unwrap());
        },
        HyprctlEvents::WorkspaceV2 { .. } => {
            assert(fields.len() == arity(name).unwrap());
        },
        HyprctlEvents::FocusedMon { .. } => {
            assert(fields.len() == arity(name).unwrap());
        },
        HyprctlEvents::ActiveWindow { .. } => {
            assert(fields.len() == arity(name).unwrap());
        },
        HyprctlEvents::ActiveWindowV2 { .. } => {
            assert(fields.len() == arity(name).unwrap());
        },
        HyprctlEvents::FullScreen(..) => {
            assert("fullscreen"@[1] != "focusedmon"@[1]);
            assert(fields.len() == arity(name).unwrap());
        },
        HyprctlEvents::MonitorRemoved { .. } => {
            assert("monitorremoved"@[0] != "activewindowv2"@[0]);
            assert(fields.len() == arity(name).unwrap());
        },
        HyprctlEvents::MonitorAdded { .. } => {
            assert("monitoradded"@[0] != "activewindow"@[0]);
            assert(fields.len() == arity(name).unwrap());
        },
        HyprctlEvents::MonitorAddedV2 { .. } => {
            assert("monitoraddedv2"@[0] != "activewindowv2"@[0]);
            assert("monitoraddedv2"@[7] != "monitorremoved"@[7]);
            assert(fields.len() == arity(name).unwrap());
        },
        HyprctlEvents::CreateWorkspace { .. } => {
            assert(fields.len() == arity(name).unwrap());
        },
        HyprctlEvents::CreateWorkspaceV2 { .. } => {
            assert(fields.len() == arity(name).unwrap());
        },
        HyprctlEvents::DestroyWorkspace { .. } => {
            assert(fields.len() == arity(name).unwrap());
        },
        HyprctlEvents::DestroyWorkspaceV2 { .. } => {
            assert(fields.len() == arity(name).unwrap());
        },
        HyprctlEvents::MoveWorkspace { .. } => {
            assert(fields.len() == arity(name).unwrap());
        },
        HyprctlEvents::MoveWorkspaceV2 { .. } => {
            assert("moveworkspacev2"@[0] != "createworkspace"@[0]);
            assert(fields.len() == arity(name).unwrap());
        },
        HyprctlEvents::RenameWorkspace { .. } => {
            assert("renameworkspace"@[0] != "createworkspace"@[0]);
            assert("renameworkspace"@[0] != "moveworkspacev2"@[0]);
            assert(fields.len() == arity(name).unwrap());
        },
        HyprctlEvents::ActiveSpecial { .. } => {
            assert("activespecial"@[0] != "moveworkspace"@[0]);
            assert(fields.len() == arity(name).unwrap());
        },
        HyprctlEvents::ActiveLayout { .. } => {
            assert("activelayout"@[6] != "activewindow"@[6]);
            assert("activelayout"@[0] != "monitoradded"@[0]);
            assert(fields.len() == arity(name).unwrap());
        },
        HyprctlEvents::OpenWindow { .. } => {
            assert("openwindow"@[0] != "focusedmon"@[0]);
            assert("openwindow"@[0] != "fullscreen"@[0]);
            assert("openwindow"@[0] != "closelayer"@[0]);
            assert("openwindow"@[0] != "lockgroups"@[0]);
            assert(fields.len() == arity(name).unwrap());
        },
        HyprctlEvents::CloseWindow { .. } => {
            assert("closewindow"@[0] != "workspacev2"@[0]);
            assert(fields.len() == arity(name).unwrap());
        },
        HyprctlEvents::MoveWindow { .. } => {
            assert("movewindow"@[0] != "focusedmon"@[0]);
            assert("movewindow"@[0] != "fullscreen"@[0]);
            assert("movewindow"@[0] != "closelayer"@[0]);
            assert("movewindow"@[0] != "lockgroups"@[0]);
            assert(fields.len() == arity(name).unwrap());
        },
        HyprctlEvents::MoveWindowV2 { .. } => {
            assert("movewindowv2"@[0] != "activewindow"@[0]);
            assert("movewindowv2"@[2] != "monitoradded"@[2]);
            assert(fields.len() == arity(name).unwrap());
        },
        HyprctlEvents::OpenLayer { .. } => {
            assert("openlayer"@[0] != "workspace"@[0]);
            assert(fields.len() == arity(name).unwrap());
        },
        HyprctlEvents::CloseLayer { .. } => {
            assert("closelayer"@[0] != "focusedmon"@[0]);
            assert("closelayer"@[0] != "fullscreen"@[0]);
            assert(fields.len() == arity(name).unwrap());
        },
        HyprctlEvents::Submap { .. } => {
            assert(fields.len() == arity(name).unwrap());
        },
        HyprctlEvents::ChangeFloatingMode { .. } => {
            assert("changefloatingmode"@[0] != "destroyworkspacev2"@[0]);
            assert(fields.len() == arity(name).unwrap());
        },
        HyprctlEvents::Urgent { .. } => {
            assert(fields.len() == arity(name).unwrap());
        },
        HyprctlEvents::Minimize { .. } => {
            assert(fields.len() == arity(name).unwrap());
        },
        HyprctlEvents::Screencast { .. } => {
            assert("screencast"@[0] != "focusedmon"@[0]);
            assert("screencast"@[0] != "fullscreen"@[0]);
            assert("screencast"@[0] != "closelayer"@[0]);
            assert("screencast"@[0] != "lockgroups"@[0]);
            assert(fields.len() == arity(name).unwrap());
        },
        HyprctlEvents::WindowTitle { .. } => {
            assert("windowtitle"@[1] != "workspacev2"@[1]);
            assert(fields.len() == arity(name).unwrap());
        },
        HyprctlEvents::WindowTitleV2 { .. } => {
            assert("windowtitlev2"@[0] != "moveworkspace"@[0]);
            assert(fields.len() == arity(name).unwrap());
        },
        HyprctlEvents::ToggleGroup { .. } => {
            assert("togglegroup"@[0] != "workspacev2"@[0]);
            assert(fields.len() == arity(name).unwrap());
        },
        HyprctlEvents::MoveIntoGroup { .. } => {
            assert("moveintogroup"@[4] != "moveworkspace"@[4]);
            assert(fields.len() == arity(name).unwrap());
        },
        HyprctlEvents::MoveOutOfGroup { .. } => {
            assert("moveoutofgroup"@[0] != "activewindowv2"@[0]);
            assert("moveoutofgroup"@[2] != "monitorremoved"@[2]);
            assert("moveoutofgroup"@[2] != "monitoraddedv2"@[2]);
            assert(fields.len() == arity(name).unwrap());
        },
        HyprctlEvents::IgnoreGroupLock(..) => {
            assert("ignore_grouplock"@[0] != "destroyworkspace"@[0]);
            assert(fields.len() == arity(name).unwrap());
        },
        HyprctlEvents::LockGroups(..) => {
            assert("lockgroups"@[0] != "focusedmon"@[0]);
            assert("lockgroups"@[0] != "fullscreen"@[0]);
            assert("lockgroups"@[0] != "closelayer"@[0]);
            assert(fields.len() == arity(name).unwrap());
        },
        HyprctlEvents::ConfigReloaded => {
            assert("configreloaded"@[0] != "activewindowv2"@[0]);
            assert("configreloaded"@[0] != "monitorremoved"@[0]);
            assert("configreloaded"@[0] != "monitoraddedv2"@[0]);
            assert(fields.len() == arity(name).unwrap());
        },
        HyprctlEvents::Pin { .. } => {
            assert(fields.len() == arity(name).unwrap());
        },
    }
    assert(sep_at(line, k));
    assert forall|j: int| !#[trigger] sep_at(line.take(k + 1), j) by {
        if sep_at(line.take(k + 1), j) {
            assert(line[j] == name[j]);
        }
    }
    lemma_first_sep(line, k);
    assert(line.take(k) =~= name);
    assert(line.skip(k + 2) =~= join_with(texts, ','));
    assert forall|i: int| 0 <= i < texts.len() - 1 implies no_comma(#[trigger] texts[i]) by {
        assert(texts[i] == field_text(fields[i]));
    }
    lemma_split_join(texts);
    if name == "ignore_grouplock"@ || name == "lockgroups"@ {
        let n: u8 = match e {
            HyprctlEvents::IgnoreGroupLock(n) => n,
            HyprctlEvents::LockGroups(n) => n,
            _ => 0,
        };
        crate::text::lemma_parse_decimal(n as nat, 255);
    } else if !is_typed_name(name) {
        assert(texts.map_values(|t: Seq<char>| FieldValue::Text(t)) =~= fields);
    }
}

} // verus!
