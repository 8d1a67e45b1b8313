use rusty_ai::assistant::{first_by_name, load_or_create_asst, AsstPlan, AsstSummary};
use rusty_ai::cmd::Cmd;
use rusty_ai::config::{Config, FileBundle};
use rusty_ai::conv::{load_or_create_conv, Conv, ConvPlan};
use rusty_ai::errors::Error;
use rusty_ai::ids::{AsstId, CreateConfig, ThreadId};
use rusty_ai::msg::{get_text_content, MsgContent};

#[test]
fn conversation_reuses_verified_thread() {
    let plan = load_or_create_conv(false, Some(ThreadId::new("th_1".to_string())), true);
    match plan {
        ConvPlan::Reuse(c) => assert_eq!(c.thread_id.id, "th_1"),
        ConvPlan::CreateNew => panic!("expected reuse"),
    }
}

#[test]
fn conversation_falls_back_when_thread_is_gone() {
    // A record referencing a thread that no longer exists remotely is
    // not an error: a brand-new thread is created instead.
    let plan = load_or_create_conv(false, Some(ThreadId::new("th_dead".to_string())), false);
    assert!(matches!(plan, ConvPlan::CreateNew));
}

#[test]
fn conversation_recreate_ignores_record() {
    let plan = load_or_create_conv(true, Some(ThreadId::new("th_1".to_string())), true);
    assert!(matches!(plan, ConvPlan::CreateNew));
    let plan2 = load_or_create_conv(false, None, true);
    assert!(matches!(plan2, ConvPlan::CreateNew));
}

#[test]
fn conv_wraps_thread() {
    let c = Conv::from_thread(ThreadId::new("th_9".to_string()));
    assert_eq!(c.thread_id.id, "th_9");
}

#[test]
fn first_by_name_takes_first_exact_match() {
    let assts = vec![
        AsstSummary { id: "a1".to_string(), name: None },
        AsstSummary { id: "a2".to_string(), name: Some("other".to_string()) },
        AsstSummary { id: "a3".to_string(), name: Some("buddy".to_string()) },
        AsstSummary { id: "a4".to_string(), name: Some("buddy".to_string()) },
    ];
    let found = first_by_name(&assts, "buddy").expect("expected a match");
    assert_eq!(found.id, "a3");
    assert!(first_by_name(&assts, "missing").is_none());
}

#[test]
fn assistant_plan_cases() {
    let found = Some(AsstId::new("a1".to_string()));
    match load_or_create_asst(found, true) {
        AsstPlan::DeleteThenCreate(id) => assert_eq!(id.id, "a1"),
        _ => panic!("expected delete-then-create"),
    }
    let found = Some(AsstId::new("a1".to_string()));
    match load_or_create_asst(found, false) {
        AsstPlan::UseExisting(id) => assert_eq!(id.id, "a1"),
        _ => panic!("expected reuse"),
    }
    assert!(matches!(load_or_create_asst(None, true), AsstPlan::CreateNew));
    assert!(matches!(load_or_create_asst(None, false), AsstPlan::CreateNew));
}

#[test]
fn text_extraction_takes_first_text_part() {
    let content = vec![
        MsgContent::Text("hello".to_string()),
        MsgContent::Text("ignored".to_string()),
        MsgContent::Image,
    ];
    assert_eq!(get_text_content(&content).unwrap(), "hello");
}

#[test]
fn text_extraction_fails_on_empty_content() {
    let content: Vec<MsgContent> = Vec::new();
    match get_text_content(&content) {
        Err(Error::NotFound(_)) => {},
        _ => panic!("expected a not-found error"),
    }
}

#[test]
fn text_extraction_fails_on_leading_image() {
    let content = vec![MsgContent::Image, MsgContent::Text("hidden".to_string())];
    match get_text_content(&content) {
        Err(Error::UnsupportedContent) => {},
        _ => panic!("expected an unsupported-content error"),
    }
}

#[test]
fn cmd_parsing() {
    assert!(matches!(Cmd::from_input(":q".to_string()), Cmd::Quit));
    assert!(matches!(Cmd::from_input(":ra".to_string()), Cmd::RefreshAll));
    assert!(matches!(Cmd::from_input(":RA".to_string()), Cmd::RefreshAll));
    assert!(matches!(Cmd::from_input(":ri".to_string()), Cmd::RefreshInst));
    assert!(matches!(Cmd::from_input(":RI".to_string()), Cmd::RefreshInst));
    assert!(matches!(Cmd::from_input(":rf".to_string()), Cmd::RefreshFiles));
    assert!(matches!(Cmd::from_input(":RF".to_string()), Cmd::RefreshFiles));
    assert!(matches!(Cmd::from_input(":rc".to_string()), Cmd::RefreshConv));
    assert!(matches!(Cmd::from_input(":RC".to_string()), Cmd::RefreshConv));
    assert!(matches!(Cmd::from_input(":h".to_string()), Cmd::Help));
    assert!(matches!(Cmd::from_input(":H".to_string()), Cmd::Help));
    // :Q is not a recognized token: it is a chat message.
    match Cmd::from_input(":Q".to_string()) {
        Cmd::Chat(m) => assert_eq!(m, ":Q"),
        _ => panic!("expected a chat message"),
    }
    match Cmd::from_input("what is rust".to_string()) {
        Cmd::Chat(m) => assert_eq!(m, "what is rust"),
        _ => panic!("expected a chat message"),
    }
}

#[test]
fn create_config_from_config() {
    let config = Config {
        name: "buddy".to_string(),
        model: "gpt-test".to_string(),
        instructions_file: "instructions.md".to_string(),
        file_bundles: vec![FileBundle {
            bundle_name: "source".to_string(),
            src_dir: "src".to_string(),
            src_globs: vec!["*.rs".to_string()],
            dst_ext: "rs".to_string(),
        }],
    };
    let cc = CreateConfig::from_config(&config);
    assert_eq!(cc.name, "buddy");
    assert_eq!(cc.model, "gpt-test");
}

#[test]
fn error_kind_labels() {
    assert_eq!(Error::Config("x".to_string()).kind_label(), "config error");
    assert_eq!(Error::Io("x".to_string()).kind_label(), "io error");
    assert_eq!(Error::RemoteApi("x".to_string()).kind_label(), "remote api error");
    assert_eq!(Error::RunFailed("x".to_string()).kind_label(), "run failed");
    assert_eq!(Error::UnsupportedContent.kind_label(), "unsupported content");
    assert_eq!(Error::NotFound("x".to_string()).kind_label(), "not found");
    assert_eq!(Error::SafetyViolation("x".to_string()).kind_label(), "safety violation");
    assert_eq!(Error::Timeout.kind_label(), "timeout");
}
