use hypr::events::{DecodeError, HyprctlEvents};

fn decode(line: &str) -> Result<HyprctlEvents, DecodeError> {
    HyprctlEvents::decode_from_string(line.to_string())
}

fn s(v: &str) -> String {
    v.to_string()
}

#[test]
fn decodes_workspace_v2() {
    assert_eq!(
        decode("workspacev2>>2,code"),
        Ok(HyprctlEvents::WorkspaceV2 { workspace_id: s("2"), workspace_name: s("code") })
    );
}

#[test]
fn decodes_every_known_event_name() {
    let cases: Vec<(&str, HyprctlEvents)> = vec![
        ("workspace>>1", HyprctlEvents::Workspace { workspace_name: s("1") }),
        ("workspacev2>>1,one", HyprctlEvents::WorkspaceV2 { workspace_id: s("1"), workspace_name: s("one") }),
        ("focusedmon>>DP-1,3", HyprctlEvents::FocusedMon { mon_name: s("DP-1"), workspace_name: s("3") }),
        ("activewindow>>kitty,vim", HyprctlEvents::ActiveWindow { window_class: s("kitty"), window_title: s("vim") }),
        ("activewindowv2>>5e3a", HyprctlEvents::ActiveWindowV2 { window_address: s("5e3a") }),
        ("fullscreen>>true", HyprctlEvents::FullScreen(true)),
        ("fullscreen>>false", HyprctlEvents::FullScreen(false)),
        ("monitorremoved>>HDMI-A-1", HyprctlEvents::MonitorRemoved { monitor_name: s("HDMI-A-1") }),
        ("monitoradded>>HDMI-A-1", HyprctlEvents::MonitorAdded { monitor_name: s("HDMI-A-1") }),
        (
            "monitoraddedv2>>1,HDMI-A-1,Dell U2720Q",
            HyprctlEvents::MonitorAddedV2 {
                monitor_id: s("1"),
                monitor_name: s("HDMI-A-1"),
                monitor_description: s("Dell U2720Q"),
            },
        ),
        ("createworkspace>>4", HyprctlEvents::CreateWorkspace { workspace_name: s("4") }),
        ("createworkspacev2>>4,four", HyprctlEvents::CreateWorkspaceV2 { workspace_id: s("4"), workspace_name: s("four") }),
        ("destroyworkspace>>4", HyprctlEvents::DestroyWorkspace { workspace_name: s("4") }),
        ("destroyworkspacev2>>4,four", HyprctlEvents::DestroyWorkspaceV2 { workspace_id: s("4"), workspace_name: s("four") }),
        ("moveworkspace>>4,DP-1", HyprctlEvents::MoveWorkspace { workspace_name: s("4"), mon_name: s("DP-1") }),
        (
            "moveworkspacev2>>4,four,DP-1",
            HyprctlEvents::MoveWorkspaceV2 { workspace_id: s("4"), workspace_name: s("four"), mon_name: s("DP-1") },
        ),
        ("renameworkspace>>4,web", HyprctlEvents::RenameWorkspace { workspace_id: s("4"), new_name: s("web") }),
        ("openlayer>>waybar", HyprctlEvents::OpenLayer { namespace: s("waybar") }),
        ("closelayer>>waybar", HyprctlEvents::CloseLayer { namespace: s("waybar") }),
        ("changefloatingmode>>5e3a,1", HyprctlEvents::ChangeFloatingMode { window_address: s("5e3a"), floating: s("1") }),
        ("ignore_grouplock>>1", HyprctlEvents::IgnoreGroupLock(1)),
        ("lockgroups>>0", HyprctlEvents::LockGroups(0)),
    ];
    for (line, expected) in cases {
        assert_eq!(decode(line), Ok(expected), "line {}", line);
    }
}

#[test]
fn unknown_event_is_unsupported() {
    assert_eq!(decode("configreloaded>>"), Err(DecodeError::UnsupportedEvent(s("configreloaded"))));
    assert_eq!(decode("openwindow>>a,b,c,d"), Err(DecodeError::UnsupportedEvent(s("openwindow"))));
}

#[test]
fn line_without_separator_has_no_fields() {
    assert_eq!(decode("workspace"), Err(DecodeError::MissingField(0)));
    assert_eq!(decode("bogus"), Err(DecodeError::UnsupportedEvent(s("bogus"))));
    assert_eq!(decode(""), Err(DecodeError::UnsupportedEvent(s(""))));
}

#[test]
fn missing_field_reports_its_index() {
    assert_eq!(decode("workspacev2>>2"), Err(DecodeError::MissingField(1)));
    assert_eq!(decode("moveworkspacev2>>2,two"), Err(DecodeError::MissingField(2)));
}

#[test]
fn empty_payload_is_one_empty_field() {
    assert_eq!(decode("workspace>>"), Ok(HyprctlEvents::Workspace { workspace_name: s("") }));
}

#[test]
fn invalid_typed_fields_are_errors() {
    assert_eq!(decode("fullscreen>>1"), Err(DecodeError::InvalidFieldType(0, s("1"))));
    assert_eq!(decode("fullscreen>>TRUE"), Err(DecodeError::InvalidFieldType(0, s("TRUE"))));
    assert_eq!(decode("lockgroups>>256"), Err(DecodeError::InvalidFieldType(0, s("256"))));
    assert_eq!(decode("lockgroups>>-1"), Err(DecodeError::InvalidFieldType(0, s("-1"))));
    assert_eq!(decode("ignore_grouplock>>"), Err(DecodeError::InvalidFieldType(0, s(""))));
    assert_eq!(decode("ignore_grouplock>>+"), Err(DecodeError::InvalidFieldType(0, s("+"))));
    assert_eq!(decode("lockgroups>>1,2"), Err(DecodeError::InvalidFieldType(0, s("1,2"))));
}

#[test]
fn byte_fields_read_as_rust_reads_u8() {
    assert_eq!(decode("lockgroups>>255"), Ok(HyprctlEvents::LockGroups(255)));
    assert_eq!(decode("lockgroups>>+7"), Ok(HyprctlEvents::LockGroups(7)));
    assert_eq!(decode("lockgroups>>007"), Ok(HyprctlEvents::LockGroups(7)));
}

#[test]
fn last_field_keeps_its_commas() {
    assert_eq!(
        decode("activewindow>>firefox,Search, results, page"),
        Ok(HyprctlEvents::ActiveWindow { window_class: s("firefox"), window_title: s("Search, results, page") })
    );
    assert_eq!(decode("workspace>>a,b"), Ok(HyprctlEvents::Workspace { workspace_name: s("a,b") }));
}

#[test]
fn only_the_first_separator_splits_the_name() {
    assert_eq!(
        decode("activewindow>>kitty,a>>b"),
        Ok(HyprctlEvents::ActiveWindow { window_class: s("kitty"), window_title: s("a>>b") })
    );
}

#[test]
fn encoded_samples_decode_back() {
    let events = vec![
        HyprctlEvents::MonitorAddedV2 { monitor_id: s("7"), monitor_name: s("eDP-1"), monitor_description: s("panel, 14in") },
        HyprctlEvents::FullScreen(false),
        HyprctlEvents::IgnoreGroupLock(200),
        HyprctlEvents::RenameWorkspace { workspace_id: s("12"), new_name: s("") },
    ];
    let lines = vec![
        "monitoraddedv2>>7,eDP-1,panel, 14in",
        "fullscreen>>false",
        "ignore_grouplock>>200",
        "renameworkspace>>12,",
    ];
    for (e, line) in events.into_iter().zip(lines) {
        assert_eq!(decode(line), Ok(e));
    }
}
