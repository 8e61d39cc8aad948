use racerd_http::address::{bind_host, push_decimal};
use racerd_http::config::Config;
use racerd_http::pipeline::{body_within_limit, chain_plan, startup, AfterStage, BeforeStage, MAX_BODY_LENGTH};

#[test]
fn plan_with_logging_brackets_chain() {
    let p = chain_plan(true);
    assert_eq!(
        p.before,
        vec![BeforeStage::LogRequest, BeforeStage::AttachEngine, BeforeStage::LimitBody]
    );
    assert_eq!(p.after, vec![AfterStage::LogResponse]);
}

#[test]
fn plan_without_logging() {
    let p = chain_plan(false);
    assert_eq!(p.before, vec![BeforeStage::AttachEngine, BeforeStage::LimitBody]);
    assert!(p.after.is_empty());
}

#[test]
fn body_limit_edges() {
    assert!(body_within_limit(0));
    assert!(body_within_limit(MAX_BODY_LENGTH));
    assert!(!body_within_limit(MAX_BODY_LENGTH + 1));
    assert!(!body_within_limit(usize::MAX));
}

#[test]
fn bind_host_text() {
    assert_eq!(bind_host(3000), "0.0.0.0:3000");
    assert_eq!(bind_host(0), "0.0.0.0:0");
    assert_eq!(bind_host(65535), "0.0.0.0:65535");
    assert_eq!(bind_host(10), "0.0.0.0:10");
}

#[test]
fn decimal_text_appended() {
    let mut s = String::from("n=");
    push_decimal(&mut s, 407);
    assert_eq!(s, "n=407");
}

#[test]
fn startup_from_config() {
    let mut cfg = Config::new();
    assert_eq!(cfg.port, 0);
    assert!(!cfg.print_http_logs);
    cfg.port = 3048;
    cfg.print_http_logs = true;
    let s = startup(&cfg);
    assert_eq!(s.host, "0.0.0.0:3048");
    assert_eq!(s.plan.before[0], BeforeStage::LogRequest);
    assert_eq!(s.plan.after, vec![AfterStage::LogResponse]);
}
