use vine::Host::HostAction;
use vine::Json::{Json, JsonNumber};
use vine::Server::Notification::ApplyTextEdits::ApplyTextEdits;
use vine::Server::Notification::DebugLifecycle::DebugLifecycle;
use vine::Server::Notification::DisposeStatusBarItem::DisposeStatusBarItem;
use vine::Server::Notification::ExtensionActivated::ExtensionActivated;
use vine::Server::Notification::ExtensionDeactivated::ExtensionDeactivated;
use vine::Server::Notification::OpenExternal::OpenExternal;
use vine::Server::Notification::OutputAppendLine::OutputAppendLine;
use vine::Server::Notification::OutputChannelAppend::{AppendLogLine, LogText, OutputChannelAppend};
use vine::Server::Notification::OutputChannelHide::OutputChannelHide;
use vine::Server::Notification::OutputReplace::OutputReplace;
use vine::Server::Notification::ProgressEnd::ProgressEnd;
use vine::Server::Notification::ProgressReport::{MergeProgress, ProgressReport, QueuedProgress};
use vine::Server::Notification::ProgressStart::ProgressStart;
use vine::Server::Notification::RegisterCommand::{CommandBatch, RegisterCommand};
use vine::Server::Notification::RegisterLanguageProvider::{ProviderKind, RegisterLanguageProvider};
use vine::Server::Notification::RegisterScmProvider::{
    BuildUrlFromComponents, RegisterScmProvider, RootUriString, ScmHash,
};
use vine::Server::Notification::RegisterScmResourceGroup::RegisterScmResourceGroup;
use vine::Server::Notification::SetStatusBarText::SetStatusBarText;
use vine::Server::Notification::SetTextEditorDecorations::{DecorationBatch, SetTextEditorDecorations};
use vine::Server::Notification::StatusBarLifecycle::StatusBarLifecycle;
use vine::Server::Notification::StatusBarMessage::StatusBarMessage;
use vine::Server::Notification::Support::RelayToSky;
use vine::Server::Notification::Support::UnregisterByHandle::UnregisterByHandle;
use vine::Server::Notification::TerminalLifecycle::{TerminalIdOf, TerminalLifecycle};
use vine::Server::Notification::UnregisterCommand::UnregisterCommand;
use vine::Server::Notification::UnregisterDebugAdapter::UnregisterDebugAdapter;

fn text(s: &str) -> Json {
    Json::String(s.to_string())
}

fn num(n: u64) -> Json {
    Json::Number(JsonNumber::PosInt(n))
}

fn obj(members: Vec<(&str, Json)>) -> Json {
    Json::Object(members.into_iter().map(|(k, v)| (k.to_string(), v)).collect())
}

fn render(j: &Json) -> String {
    match j {
        Json::Null => "null".to_string(),
        Json::Bool(b) => format!("{}", b),
        Json::Number(JsonNumber::PosInt(u)) => format!("{}", u),
        Json::Number(JsonNumber::NegInt(i)) => format!("{}", i),
        Json::Number(JsonNumber::Float(s)) => s.clone(),
        Json::String(s) => format!("{:?}", s),
        Json::Array(items) => format!("[{}]", items.iter().map(render).collect::<Vec<_>>().join(",")),
        Json::Object(members) => format!(
            "{{{}}}",
            members.iter().map(|(k, v)| format!("{:?}:{}", k, render(v))).collect::<Vec<_>>().join(",")
        ),
    }
}

fn describe(a: &HostAction) -> String {
    match a {
        HostAction::EmitToRenderer { Channel, Payload } => format!("emit {} {}", Channel, render(Payload)),
        HostAction::UnregisterProvider { Handle } => format!("unregister-provider {}", Handle),
        HostAction::RegisterScmInRegistry { Handle, ScmId, Label, ExtensionId } => {
            format!("scm-registry {} {} {} {}", Handle, ScmId, Label, ExtensionId)
        },
        HostAction::CreateSourceControl { Data } => format!("create-scm {}", render(Data)),
        HostAction::UpdateSourceControlGroup { Handle, Data } => format!("update-group {} {}", Handle, render(Data)),
        HostAction::RegisterCommandInRegistry { CommandId, SideCar } => format!("register-command {} {}", CommandId, SideCar),
        HostAction::UnregisterCommandInRegistry { CommandId } => format!("unregister-command {}", CommandId),
        HostAction::SendNotification { Target, Method, Payload } => {
            format!("notify {} {} {}", Target, Method, render(Payload))
        },
        HostAction::SpawnSendTextToTerminal { TerminalId, Text } => format!("terminal-text {} {:?}", TerminalId, Text),
        HostAction::SpawnDisposeTerminal { TerminalId } => format!("terminal-dispose {}", TerminalId),
        HostAction::RegisterLanguageProvider { Handle, TypeName, Parameter } => {
            format!("language-provider {} {} {}", Handle, TypeName, render(Parameter))
        },
        HostAction::OpenExternal { Uri } => format!("open {}", Uri),
        HostAction::QueueCommand { Descriptor } => format!("queue-command {}", render(Descriptor)),
        HostAction::QueueDecoration { Parameter } => format!("queue-decoration {}", render(Parameter)),
        HostAction::QueueProgress { ProgressHandle, Message } => format!("queue-progress {} {:?}", ProgressHandle, Message),
    }
}

fn describe_all(v: &[HostAction]) -> Vec<String> {
    v.iter().map(describe).collect()
}

#[test]
fn relay_handlers_pass_the_parameter_through() {
    let p = obj(vec![("extensionId", text("a.b"))]);
    assert_eq!(describe_all(&ExtensionActivated(&p)), vec![r#"emit cocoon:extensionActivated {"extensionId":"a.b"}"#]);
    assert_eq!(describe_all(&RelayToSky::Fn("sky://x", &Json::Null)), vec!["emit sky://x null"]);
}

#[test]
fn extension_deactivated_does_nothing() {
    assert!(ExtensionDeactivated(&obj(vec![("extensionId", text("a"))])).is_empty());
}

#[test]
fn apply_text_edits_needs_uri_and_edits() {
    let good = obj(vec![("uri", text("file:///a")), ("edits", Json::Array(vec![num(1)]))]);
    assert_eq!(
        describe_all(&ApplyTextEdits(&good)),
        vec![r#"emit sky://editor/apply-text-edits {"uri":"file:///a","edits":[1]}"#]
    );
    let no_edits = obj(vec![("uri", text("file:///a")), ("edits", Json::Array(vec![]))]);
    assert!(ApplyTextEdits(&no_edits).is_empty());
    let no_uri = obj(vec![("edits", Json::Array(vec![num(1)]))]);
    assert!(ApplyTextEdits(&no_uri).is_empty());
}

#[test]
fn debug_breakpoints_are_forwarded_to_the_extension_host() {
    let p = obj(vec![("breakpoints", Json::Array(vec![num(7)]))]);
    assert_eq!(
        describe_all(&DebugLifecycle("debug.addBreakpoints", &p)),
        vec![
            r#"emit sky://debug/addBreakpoints {"breakpoints":[7]}"#,
            r#"notify cocoon-main $onDidChangeBreakpoints {"added":[7],"removed":[],"changed":[]}"#
        ]
    );
    assert_eq!(
        describe_all(&DebugLifecycle("debug.removeBreakpoints", &p)),
        vec![
            r#"emit sky://debug/removeBreakpoints {"breakpoints":[7]}"#,
            r#"notify cocoon-main $onDidChangeBreakpoints {"added":[],"removed":[7],"changed":[]}"#
        ]
    );
    assert_eq!(describe_all(&DebugLifecycle("debug.start", &Json::Null)), vec!["emit sky://debug/start null"]);
}

#[test]
fn dispose_status_bar_item_needs_an_id() {
    assert_eq!(
        describe_all(&DisposeStatusBarItem(&obj(vec![("id", text("s1"))]))),
        vec![r#"emit sky://statusbar/dispose-entry {"id":"s1"}"#]
    );
    assert!(DisposeStatusBarItem(&obj(vec![])).is_empty());
}

#[test]
fn open_external_needs_a_uri() {
    assert_eq!(describe_all(&OpenExternal(&obj(vec![("uri", text("https://x"))]))), vec!["open https://x"]);
    assert!(OpenExternal(&obj(vec![("uri", text(""))])).is_empty());
}

#[test]
fn output_append_line_adds_a_newline() {
    let p = obj(vec![("channel", text("Git")), ("text", text("done"))]);
    assert_eq!(
        describe_all(&OutputAppendLine(&p)),
        vec![r#"emit sky://output/append {"channel":"Git","text":"done\n"}"#]
    );
    assert_eq!(
        describe_all(&OutputAppendLine(&obj(vec![]))),
        vec![r#"emit sky://output/append {"channel":"","text":"\n"}"#]
    );
}

#[test]
fn output_channel_append_offers_text_to_the_coalescer() {
    let p = obj(vec![("name", text("Tasks")), ("value", text("hi"))]);
    let plan = OutputChannelAppend(&p);
    assert_eq!(plan.Coalesce, Some(("Tasks".to_string(), "hi".to_string())));
    assert_eq!(describe_all(&plan.Fallback), vec![r#"emit sky://output/append {"name":"Tasks","value":"hi"}"#]);
    let no_text = obj(vec![("channel", text("Tasks"))]);
    assert_eq!(OutputChannelAppend(&no_text).Coalesce, None);
    let unnamed = OutputChannelAppend(&obj(vec![("value", text("x"))]));
    assert_eq!(unnamed.Coalesce, Some(("?".to_string(), "x".to_string())));
}

#[test]
fn output_channel_hide_sends_visible_false() {
    assert_eq!(
        describe_all(&OutputChannelHide(&obj(vec![("handle", text("h1"))]))),
        vec![r#"emit sky://output/show {"visible":false,"channel":"h1"}"#]
    );
}

#[test]
fn output_replace_clears_then_appends() {
    let p = obj(vec![("channel", text("c")), ("text", text("t"))]);
    assert_eq!(
        describe_all(&OutputReplace(&p)),
        vec![r#"emit sky://output/clear {"channel":"c"}"#, r#"emit sky://output/append {"channel":"c","text":"t"}"#]
    );
}

#[test]
fn progress_start_end_and_report() {
    let p = obj(vec![("handle", text("p1")), ("title", text("Indexing")), ("cancellable", Json::Bool(true))]);
    assert_eq!(
        describe_all(&ProgressStart(&p)),
        vec![r#"emit sky://notification/progress-begin {"id":"p1","title":"Indexing","cancellable":true}"#]
    );
    let q = obj(vec![("handle", text("p1"))]);
    assert_eq!(
        describe_all(&ProgressStart(&q)),
        vec![r#"emit sky://notification/progress-begin {"id":"p1","title":"","cancellable":false}"#]
    );
    assert_eq!(describe_all(&ProgressEnd(&q)), vec![r#"emit sky://notification/progress-end {"id":"p1"}"#]);
    let r = obj(vec![("handle", text("p1")), ("message", text("50%")), ("increment", num(5))]);
    assert_eq!(describe_all(&ProgressReport(&r)), vec![r#"queue-progress p1 "50%""#]);
}

fn queued(h: &str, m: &str) -> QueuedProgress {
    QueuedProgress { ProgressHandle: h.to_string(), Message: m.to_string() }
}

#[test]
fn merge_progress_keeps_latest_non_empty_message_per_handle() {
    let items = vec![queued("a", "one"), queued("b", "x"), queued("a", ""), queued("a", "three"), queued("b", "")];
    let merged = MergeProgress(&items);
    assert_eq!(merged.Handles, vec!["a".to_string(), "b".to_string()]);
    assert_eq!(merged.Messages, vec!["three".to_string(), "x".to_string()]);
    assert_eq!(merged.Group, vec![0, 1, 0, 0, 1]);
    let empty = MergeProgress(&vec![]);
    assert!(empty.Handles.is_empty() && empty.Messages.is_empty() && empty.Group.is_empty());
    let silent = MergeProgress(&vec![queued("c", "")]);
    assert_eq!(silent.Messages, vec!["".to_string()]);
}

#[test]
fn register_command_registers_and_queues() {
    let p = obj(vec![("commandId", text("git.commit"))]);
    assert_eq!(
        describe_all(&RegisterCommand(&p)),
        vec![
            "register-command git.commit cocoon-main",
            r#"queue-command {"id":"git.commit","commandId":"git.commit","kind":"command"}"#
        ]
    );
    assert!(RegisterCommand(&obj(vec![("kind", text("x"))])).is_empty());
    assert_eq!(
        describe(&CommandBatch(vec![num(1), num(2)])),
        r#"emit sky://command/register {"commands":[1,2]}"#
    );
}

#[test]
fn unregister_command_removes_and_tells_the_renderer() {
    assert_eq!(
        describe_all(&UnregisterCommand(&obj(vec![("commandId", text("c"))]))),
        vec!["unregister-command c", r#"emit sky://command/unregister {"id":"c","commandId":"c"}"#]
    );
    assert!(UnregisterCommand(&obj(vec![])).is_empty());
}

#[test]
fn provider_kind_strips_prefix_and_suffix() {
    assert_eq!(ProviderKind("register_hover_provider"), "hover");
    assert_eq!(ProviderKind("register_inline_completion_item_provider"), "inline_completion_item");
    assert_eq!(ProviderKind("register_x"), "x");
    assert_eq!(ProviderKind("other"), "");
    let p = obj(vec![("handle", num(4))]);
    assert_eq!(
        describe_all(&RegisterLanguageProvider("register_hover_provider", &p)),
        vec![r#"language-provider 4 hover {"handle":4}"#]
    );
}

#[test]
fn scm_hash_is_the_djb_fold() {
    assert_eq!(ScmHash(""), 5381);
    assert_eq!(ScmHash("a"), 177670);
    assert_eq!(ScmHash("ab"), 177670 * 33 + 98);
    let mut expected: u32 = 5381;
    for b in "git-provider-with-a-long-name".bytes() {
        expected = expected.wrapping_mul(33).wrapping_add(b as u32);
    }
    assert_eq!(ScmHash("git-provider-with-a-long-name"), expected);
}

#[test]
fn build_url_joins_components() {
    let o = obj(vec![
        ("scheme", text("file")),
        ("authority", text("")),
        ("path", text("/repo")),
        ("query", text("q=1")),
        ("fragment", text("top")),
    ]);
    assert_eq!(BuildUrlFromComponents(&o), Some("file:///repo?q=1#top".to_string()));
    assert_eq!(BuildUrlFromComponents(&obj(vec![("scheme", text(""))])), None);
    assert_eq!(BuildUrlFromComponents(&obj(vec![("path", text("/a"))])), None);
}

#[test]
fn root_uri_string_fallbacks() {
    assert_eq!(RootUriString(&text("git://x")), "git://x");
    assert_eq!(RootUriString(&obj(vec![("external", text("file:///e"))])), "file:///e");
    assert_eq!(RootUriString(&obj(vec![("path", text("/home/u"))])), "file:///home/u");
    assert_eq!(RootUriString(&obj(vec![("path", text("rel"))])), "file:///");
    assert_eq!(RootUriString(&Json::Null), "file:///");
}

#[test]
fn register_scm_provider_with_and_without_handle() {
    let p = obj(vec![("id", text("git")), ("label", text("Git")), ("extensionId", text("vscode.git")), ("handle", num(3))]);
    assert_eq!(
        describe_all(&RegisterScmProvider(&p)),
        vec![
            "scm-registry 3 git Git vscode.git",
            r#"create-scm {"handle":3,"id":"git","label":"Git","rootUri":"file:///"}"#,
            r#"emit sky://scm/register {"scmId":"git","label":"Git","rootUri":"file:///","extensionId":"vscode.git","handle":3}"#
        ]
    );
    let q = obj(vec![("scmId", text("ab"))]);
    let h = (5381u32 * 33 + 97) * 33 + 98;
    assert_eq!(describe_all(&RegisterScmProvider(&q))[0], format!("scm-registry {} ab ab ", h));
    assert!(RegisterScmProvider(&obj(vec![("label", text("x"))])).is_empty());
}

#[test]
fn register_scm_resource_group_is_keyed_by_its_provider() {
    let p = obj(vec![("scmHandle", num(3)), ("groupHandle", text("g1")), ("groupId", text("index")), ("label", text("Staged"))]);
    assert_eq!(
        describe_all(&RegisterScmResourceGroup(&p)),
        vec![
            r#"update-group 3 {"providerHandle":3,"groupId":"index","label":"Staged","resourceStates":[]}"#,
            r#"emit sky://scm/registerGroup {"scmHandle":3,"groupHandle":"g1","groupId":"index","label":"Staged"}"#
        ]
    );
    assert!(RegisterScmResourceGroup(&obj(vec![("scmHandle", num(3))])).is_empty());
}

#[test]
fn set_status_bar_text_defaults_to_empty() {
    assert_eq!(
        describe_all(&SetStatusBarText(&obj(vec![("id", text("s")), ("text", text("T"))]))),
        vec![r#"emit sky://statusbar/set-entry {"id":"s","text":"T","tooltip":""}"#]
    );
}

#[test]
fn status_bar_message_and_lifecycle() {
    assert_eq!(
        describe_all(&StatusBarMessage(&obj(vec![("text", text("hi")), ("hideAfter", num(5))]))),
        vec![r#"emit sky://statusbar/set-message {"text":"hi","hideAfter":5}"#]
    );
    assert_eq!(
        describe_all(&StatusBarMessage(&obj(vec![("text", text("hi"))]))),
        vec![r#"emit sky://statusbar/set-message {"text":"hi","hideAfter":null}"#]
    );
    assert_eq!(describe_all(&StatusBarLifecycle("statusBar.show", &Json::Null)), vec!["emit sky://statusbar/show null"]);
}

#[test]
fn terminal_lifecycle_reaches_the_terminal() {
    let p = obj(vec![("handle", text("terminal:12")), ("text", text("ls"))]);
    assert_eq!(TerminalIdOf(&p), Some(12));
    assert_eq!(
        describe_all(&TerminalLifecycle("terminal.sendText", &p)),
        vec![r#"emit sky://terminal/sendText {"handle":"terminal:12","text":"ls"}"#, r#"terminal-text 12 "ls""#]
    );
    let d = obj(vec![("handle", text("9"))]);
    assert_eq!(describe_all(&TerminalLifecycle("terminal.dispose", &d))[1], "terminal-dispose 9");
    let bad = obj(vec![("handle", text("terminal:x"))]);
    assert_eq!(TerminalIdOf(&bad), None);
    assert_eq!(TerminalLifecycle("terminal.dispose", &bad).len(), 1);
}

#[test]
fn decorations_are_queued_and_batched() {
    let p = obj(vec![("key", text("k"))]);
    assert_eq!(describe_all(&SetTextEditorDecorations(&p)), vec![r#"queue-decoration {"key":"k"}"#]);
    assert_eq!(describe(&DecorationBatch(vec![p])), r#"emit sky://decoration/set-ranges {"batch":[{"key":"k"}]}"#);
}

#[test]
fn unregister_by_handle_skips_zero() {
    assert_eq!(describe_all(&UnregisterByHandle(&obj(vec![("handle", num(8))]), "x")), vec!["unregister-provider 8"]);
    assert!(UnregisterByHandle(&obj(vec![]), "x").is_empty());
    assert_eq!(describe_all(&UnregisterDebugAdapter(&obj(vec![("handle", num(2))]))), vec!["unregister-provider 2"]);
}

#[test]
fn scm_group_lands_under_its_providers_handle() {
    for h in [7u64, 4294967301u64] {
        let provider = obj(vec![("id", text("git")), ("scmHandle", num(h))]);
        let group = obj(vec![("scm_handle", num(h)), ("groupId", text("index"))]);
        let expected = (h as u32).to_string();
        assert_eq!(describe_all(&RegisterScmProvider(&provider))[0], format!("scm-registry {} git git ", expected));
        assert!(describe_all(&RegisterScmResourceGroup(&group))[0].starts_with(&format!("update-group {} ", expected)));
    }
}

fn reference_log_text(s: &str) -> String {
    if s.len() > 200 {
        let cut = s.char_indices().map(|(i, _)| i).take_while(|i| *i <= 200).last().unwrap_or(0);
        format!("{}…", &s[..cut])
    } else {
        s.to_string()
    }
}

#[test]
fn log_text_cuts_at_a_character_boundary() {
    let short = "x".repeat(200);
    assert_eq!(LogText(&short), short);
    let long = "a".repeat(250);
    assert_eq!(LogText(&long), format!("{}…", "a".repeat(200)));
    let straddling = format!("{}é{}", "a".repeat(199), "b".repeat(10));
    assert_eq!(LogText(&straddling), format!("{}…", "a".repeat(199)));
    for s in [long.clone(), straddling.clone(), format!("{}日本語{}", "z".repeat(197), "q".repeat(30))] {
        assert_eq!(LogText(&s), reference_log_text(&s));
    }
}

#[test]
fn append_log_line_for_source_control_and_other_channels() {
    let git = AppendLogLine(&obj(vec![("channel", text("Git")), ("value", text("pushed\n\n"))]));
    assert_eq!((git.0.as_str(), git.1.as_str()), ("grpc", "[OutputChannel:Git] pushed"));
    let scm = AppendLogLine(&obj(vec![("name", text("Source Control"))]));
    assert_eq!(scm.1, "[OutputChannel:Source Control] <no-value>");
    let other = AppendLogLine(&obj(vec![("channel", text("Tasks")), ("value", text("x"))]));
    assert_eq!((other.0.as_str(), other.1.as_str()), ("output-verbose", "[OutputChannel] append channel=Tasks"));
}
