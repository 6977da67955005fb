use std::cell::Cell;

use argo_hermes::server::decode_command;
use argo_hermes::server::Command;
use argo_hermes::server::NotificationConfig;
use argo_hermes::server::ServiceConfig;
use argo_hermes::services::CallError;
use argo_hermes::services::DefaultServiceRegistry;
use argo_hermes::services::DeliveryTransport;
use argo_hermes::services::FactoryError;
use argo_hermes::services::Notification;
use argo_hermes::services::RenderError;
use argo_hermes::services::SecretStore;
use argo_hermes::services::Service;
use argo_hermes::services::ServiceKind;
use argo_hermes::slack::PrimaryCall;
use argo_hermes::slack::SlackFactory;
use argo_hermes::templates::TemplateCache;
use argo_hermes::templates::TemplateError;
use argo_hermes::templates::TemplateRegistry;
use argo_hermes::values::StrMap;

struct FixedSecretStore;

impl SecretStore for FixedSecretStore {
    fn get(&self, name: &str) -> Result<String, String> {
        match name {
            "slack-token" => Ok("xoxb-resolved".to_string()),
            _ => Err(format!("secret {} absent", name)),
        }
    }
}

struct CountingTemplateRegistry {
    fetches: Cell<u32>,
}

impl TemplateRegistry for CountingTemplateRegistry {
    fn get(&self, name: &str) -> Result<Vec<(String, String)>, TemplateError> {
        self.fetches.set(self.fetches.get() + 1);
        match name {
            "default" => Ok(vec![
                ("primary".to_string(), "Hi {{name}}".to_string()),
                ("secondary".to_string(), "Bye {{name}}".to_string()),
            ]),
            "broken" => Err(TemplateError::InvalidFormat("not a mapping".to_string())),
            _ => Err(TemplateError::NotFound),
        }
    }
}

#[derive(Debug, PartialEq)]
enum TransportCall {
    Post { channel: String, text: String },
    Update { channel_id: String, thread_id: String, text: String },
    Reply { channel_id: String, thread_id: String, text: String },
}

struct RecordingTransport {
    calls: Vec<TransportCall>,
}

impl RecordingTransport {
    fn new() -> Self {
        RecordingTransport { calls: Vec::new() }
    }
}

impl DeliveryTransport for RecordingTransport {
    fn post_message(
        &mut self,
        token: &str,
        _icon_emoji: Option<&str>,
        channel: &str,
        text: &str,
    ) -> Result<(String, String), String> {
        assert_eq!(token, "xoxb-resolved");
        self.calls.push(TransportCall::Post { channel: channel.to_string(), text: text.to_string() });
        Ok(("C9".to_string(), "T42".to_string()))
    }

    fn update_message(
        &mut self,
        token: &str,
        _icon_emoji: Option<&str>,
        channel_id: &str,
        thread_id: &str,
        text: &str,
    ) -> Result<(String, String), String> {
        assert_eq!(token, "xoxb-resolved");
        self.calls.push(TransportCall::Update {
            channel_id: channel_id.to_string(),
            thread_id: thread_id.to_string(),
            text: text.to_string(),
        });
        Ok((channel_id.to_string(), thread_id.to_string()))
    }

    fn reply_in_thread(
        &mut self,
        token: &str,
        _icon_emoji: Option<&str>,
        channel_id: &str,
        thread_id: &str,
        text: &str,
    ) -> Result<(String, String), String> {
        assert_eq!(token, "xoxb-resolved");
        self.calls.push(TransportCall::Reply {
            channel_id: channel_id.to_string(),
            thread_id: thread_id.to_string(),
            text: text.to_string(),
        });
        Ok((channel_id.to_string(), thread_id.to_string()))
    }
}

fn slack_registry() -> DefaultServiceRegistry {
    let mut table = StrMap::new();
    table.insert("slack", ServiceKind::Slack);
    DefaultServiceRegistry::with_services(table)
}

fn slack_config() -> StrMap<String> {
    let mut config = StrMap::new();
    config.insert("token", "slack-token".to_string());
    config
}

fn template_with(pairs: &[(&str, &str)]) -> StrMap<String> {
    let mut t = StrMap::new();
    for (k, v) in pairs {
        t.insert(k, v.to_string());
    }
    t
}

fn context_with(pairs: &[(&str, &str)]) -> StrMap<String> {
    template_with(pairs)
}

#[test]
fn str_map_insert_get_remove() {
    let mut m: StrMap<String> = StrMap::new();
    assert_eq!(m.get("a"), None);
    m.insert("a", "1".to_string());
    m.insert("b", "2".to_string());
    assert_eq!(m.get("a"), Some(&"1".to_string()));
    assert_eq!(m.get("b"), Some(&"2".to_string()));
    m.insert("a", "3".to_string());
    assert_eq!(m.get("a"), Some(&"3".to_string()));
    assert_eq!(m.remove("a"), Some("3".to_string()));
    assert_eq!(m.get("a"), None);
    assert_eq!(m.remove("a"), None);
    assert!(m.contains_key("b"));
    assert!(!m.contains_key("a"));
}

#[test]
fn str_map_from_pairs_later_entry_wins() {
    let pairs = vec![
        ("k".to_string(), "first".to_string()),
        ("k".to_string(), "second".to_string()),
    ];
    let m = StrMap::from_pairs(&pairs);
    assert_eq!(m.get("k"), Some(&"second".to_string()));
}

#[test]
fn decode_command_picks_the_single_shape() {
    let sc = ServiceConfig {
        alias: "a".to_string(),
        service: "slack".to_string(),
        config: StrMap::new(),
    };
    match decode_command(Some(sc), None) {
        Ok(Command::Setup(cs)) => assert_eq!(cs.setup.alias, "a"),
        _ => panic!("expected the setup shape"),
    }
    let nc = NotificationConfig {
        target: "a".to_string(),
        template: "t".to_string(),
        context: StrMap::new(),
        config: StrMap::new(),
    };
    match decode_command(None, Some(nc)) {
        Ok(Command::Notify(cn)) => assert_eq!(cn.notify.target, "a"),
        _ => panic!("expected the notify shape"),
    }
}

#[test]
fn decode_command_rejects_none_and_both() {
    assert_eq!(
        decode_command(None, None).unwrap_err(),
        "no command found in the request"
    );
    let sc = ServiceConfig {
        alias: "a".to_string(),
        service: "slack".to_string(),
        config: StrMap::new(),
    };
    let nc = NotificationConfig {
        target: "a".to_string(),
        template: "t".to_string(),
        context: StrMap::new(),
        config: StrMap::new(),
    };
    assert_eq!(
        decode_command(Some(sc), Some(nc)).unwrap_err(),
        "ambiguous command: both setup and notify are present"
    );
}

#[test]
fn unknown_service_type_leaves_registry_unmodified() {
    let mut services = slack_registry();
    let secrets = FixedSecretStore;
    let r = services.setup("default", "teams", StrMap::new(), &secrets);
    assert_eq!(r, Err(FactoryError::ServiceNotFound));
    assert!(services.get("default").is_none());
}

#[test]
fn second_setup_replaces_the_first_instance() {
    let mut table = StrMap::new();
    table.insert("mock", ServiceKind::Mock);
    let mut services = DefaultServiceRegistry::with_services(table);
    let secrets = FixedSecretStore;

    let mut first = StrMap::new();
    first.insert("marker", "one".to_string());
    services.setup("a", "mock", first, &secrets).unwrap();
    let mut second = StrMap::new();
    second.insert("marker", "two".to_string());
    services.setup("a", "mock", second, &secrets).unwrap();

    match services.get("a").expect("instance missing") {
        Service::Mock(m) => {
            assert_eq!(m.service_config.get("marker"), Some(&"two".to_string()));
            assert_eq!(m.calls.len(), 0);
        },
        _ => panic!("wrong service kind"),
    }
}

#[test]
fn slack_factory_rejects_config_without_token() {
    let secrets = FixedSecretStore;
    let r = SlackFactory::from_config(&StrMap::new(), &secrets);
    match r {
        Err(FactoryError::ConfigError(m)) => assert_eq!(m, "missing field `token`"),
        _ => panic!("expected a config error"),
    }
}

#[test]
fn slack_factory_reports_unresolved_secret() {
    let secrets = FixedSecretStore;
    let mut config = StrMap::new();
    config.insert("token", "absent-secret".to_string());
    match SlackFactory::from_config(&config, &secrets) {
        Err(FactoryError::ConfigError(m)) => {
            assert_eq!(m, "Invalid token secret: secret absent-secret absent");
        },
        _ => panic!("expected a config error"),
    }
}

#[test]
fn slack_factory_keeps_icon_emoji() {
    let secrets = FixedSecretStore;
    let mut config = slack_config();
    config.insert("icon_emoji", ":bell:".to_string());
    let s = SlackFactory::from_config(&config, &secrets).unwrap();
    assert_eq!(s.config.icon_emoji, Some(":bell:".to_string()));
    assert_eq!(s.config.token, "xoxb-resolved");
}

#[test]
fn render_substitutes_the_context() {
    let n = Notification {
        template: template_with(&[("primary", "Hi {{name}}")]),
        context: context_with(&[("name", "Ada")]),
    };
    assert_eq!(n.render("primary").unwrap(), "Hi Ada");
}

#[test]
fn render_missing_subtemplate_fails() {
    let n = Notification {
        template: template_with(&[("primary", "Hi {{name}}")]),
        context: context_with(&[("name", "Ada")]),
    };
    let e = n.render("secondary").unwrap_err();
    assert_eq!(e, RenderError::SubTemplateNotFound);
    assert_eq!(e.message(), "Sub-template not found");
}

#[test]
fn render_is_strict_about_missing_context_keys() {
    let n = Notification {
        template: template_with(&[("primary", "Hi {{name}}")]),
        context: context_with(&[]),
    };
    match n.render("primary") {
        Err(RenderError::RenderError(m)) => assert!(m.starts_with("Failed to render: ")),
        other => panic!("expected a render failure, got {:?}", other),
    }
}

#[test]
fn first_notify_posts_then_replies_into_the_new_thread() {
    let secrets = FixedSecretStore;
    let mut slack = SlackFactory::from_config(&slack_config(), &secrets).unwrap();
    let mut transport = RecordingTransport::new();

    let notification = Notification {
        template: template_with(&[("primary", "P {{v}}"), ("secondary", "S {{v}}")]),
        context: context_with(&[("v", "1")]),
    };
    let config = context_with(&[("channel", "sandbox")]);
    let r = slack.notify(config, notification, &mut transport);
    assert_eq!(r, Ok(()));
    assert_eq!(
        transport.calls,
        vec![
            TransportCall::Post { channel: "sandbox".to_string(), text: "P 1".to_string() },
            TransportCall::Reply {
                channel_id: "C9".to_string(),
                thread_id: "T42".to_string(),
                text: "S 1".to_string(),
            },
        ]
    );
}

#[test]
fn second_notify_updates_the_recorded_thread() {
    let secrets = FixedSecretStore;
    let mut slack = SlackFactory::from_config(&slack_config(), &secrets).unwrap();

    let mut transport = RecordingTransport::new();
    let notification = Notification {
        template: template_with(&[("primary", "P {{v}}"), ("secondary", "S {{v}}")]),
        context: context_with(&[("v", "1")]),
    };
    let config = context_with(&[("channel", "sandbox")]);
    slack.notify(config, notification, &mut transport).unwrap();

    match slack.plan_primary("sandbox") {
        PrimaryCall::Update { channel_id, thread_id } => {
            assert_eq!(channel_id, "C9");
            assert_eq!(thread_id, "T42");
        },
        PrimaryCall::Create { .. } => panic!("the thread should be cached"),
    }

    let mut transport = RecordingTransport::new();
    let notification = Notification {
        template: template_with(&[("primary", "P {{v}}"), ("secondary", "S {{v}}")]),
        context: context_with(&[("v", "2")]),
    };
    let config = context_with(&[("channel", "sandbox")]);
    slack.notify(config, notification, &mut transport).unwrap();
    assert_eq!(
        transport.calls,
        vec![
            TransportCall::Update {
                channel_id: "C9".to_string(),
                thread_id: "T42".to_string(),
                text: "P 2".to_string(),
            },
            TransportCall::Reply {
                channel_id: "C9".to_string(),
                thread_id: "T42".to_string(),
                text: "S 2".to_string(),
            },
        ]
    );
}

#[test]
fn missing_secondary_fails_before_its_delivery() {
    let secrets = FixedSecretStore;
    let mut slack = SlackFactory::from_config(&slack_config(), &secrets).unwrap();
    let mut transport = RecordingTransport::new();

    let notification = Notification {
        template: template_with(&[("primary", "P {{v}}")]),
        context: context_with(&[("v", "1")]),
    };
    let config = context_with(&[("channel", "sandbox")]);
    let r = slack.notify(config, notification, &mut transport);
    match r {
        Err(CallError::RenderError(m)) => assert_eq!(m, "Sub-template not found"),
        other => panic!("expected a render error, got {:?}", other),
    }
    assert_eq!(
        transport.calls,
        vec![TransportCall::Post { channel: "sandbox".to_string(), text: "P 1".to_string() }]
    );
}

#[test]
fn notify_without_channel_config_is_rejected() {
    let secrets = FixedSecretStore;
    let mut slack = SlackFactory::from_config(&slack_config(), &secrets).unwrap();
    let mut transport = RecordingTransport::new();

    let notification = Notification {
        template: template_with(&[("primary", "P")]),
        context: context_with(&[]),
    };
    let r = slack.notify(StrMap::new(), notification, &mut transport);
    match r {
        Err(CallError::ConfigError(m)) => assert_eq!(m, "missing field `channel`"),
        other => panic!("expected a config error, got {:?}", other),
    }
    assert!(transport.calls.is_empty());
}

#[test]
fn template_cache_fetches_once_per_name() {
    let registry = CountingTemplateRegistry { fetches: Cell::new(0) };
    let mut cache = TemplateCache::new();

    let t1 = cache.get("default", &registry).unwrap();
    assert_eq!(registry.fetches.get(), 1);
    let t2 = cache.get("default", &registry).unwrap();
    assert_eq!(registry.fetches.get(), 1);
    assert_eq!(t1.get("primary"), t2.get("primary"));
    assert_eq!(t1.get("secondary"), Some(&"Bye {{name}}".to_string()));
}

#[test]
fn template_cache_passes_store_errors_through() {
    let registry = CountingTemplateRegistry { fetches: Cell::new(0) };
    let mut cache = TemplateCache::new();

    let e = cache.get("missing", &registry).unwrap_err();
    assert_eq!(e, TemplateError::NotFound);
    assert_eq!(e.message(), "Template not found");
    let e = cache.get("broken", &registry).unwrap_err();
    assert_eq!(e.message(), "Invalid template format: not a mapping");
    // a failed fetch is not cached: the next call asks the store again
    let e = cache.get("missing", &registry).unwrap_err();
    assert_eq!(e, TemplateError::NotFound);
    assert_eq!(registry.fetches.get(), 3);
}

#[test]
fn error_messages_match_their_variants() {
    assert_eq!(FactoryError::ServiceNotFound.message(), "Service not found");
    assert_eq!(
        FactoryError::ConfigError("x".to_string()).message(),
        "Invalid config: x"
    );
    assert_eq!(CallError::Fail("x".to_string()).message(), "Call failure: x");
    assert_eq!(
        CallError::ConfigError("x".to_string()).message(),
        "Invalid config: x"
    );
    assert_eq!(
        CallError::RenderError("x".to_string()).message(),
        "Render error: x"
    );
    assert_eq!(RenderError::SubTemplateNotFound.message(), "Sub-template not found");
    assert_eq!(RenderError::RenderError("x".to_string()).message(), "x");
    assert_eq!(TemplateError::GenericError("x".to_string()).message(), "x");
}

#[test]
fn default_registry_offers_the_chat_service() {
    let secrets = FixedSecretStore;
    let mut services = DefaultServiceRegistry::with_default_services();
    services.setup("work", "slack", slack_config(), &secrets).unwrap();
    match services.get("work").expect("instance missing") {
        Service::Slack(s) => assert_eq!(s.config.token, "xoxb-resolved"),
        _ => panic!("wrong service kind"),
    }
    assert_eq!(
        services.setup("x", "mock", StrMap::new(), &secrets),
        Err(FactoryError::ServiceNotFound)
    );
}

struct FailingTransport;

impl DeliveryTransport for FailingTransport {
    fn post_message(
        &mut self,
        _token: &str,
        _icon_emoji: Option<&str>,
        _channel: &str,
        _text: &str,
    ) -> Result<(String, String), String> {
        Err("provider unavailable".to_string())
    }

    fn update_message(
        &mut self,
        _token: &str,
        _icon_emoji: Option<&str>,
        _channel_id: &str,
        _thread_id: &str,
        _text: &str,
    ) -> Result<(String, String), String> {
        Err("provider unavailable".to_string())
    }

    fn reply_in_thread(
        &mut self,
        _token: &str,
        _icon_emoji: Option<&str>,
        _channel_id: &str,
        _thread_id: &str,
        _text: &str,
    ) -> Result<(String, String), String> {
        Err("provider unavailable".to_string())
    }
}

#[test]
fn failed_primary_delivery_surfaces_as_call_failure() {
    let secrets = FixedSecretStore;
    let mut slack = SlackFactory::from_config(&slack_config(), &secrets).unwrap();
    let mut transport = FailingTransport;

    let notification = Notification {
        template: template_with(&[("primary", "P"), ("secondary", "S")]),
        context: context_with(&[]),
    };
    let config = context_with(&[("channel", "sandbox")]);
    let r = slack.notify(config, notification, &mut transport);
    match r {
        Err(CallError::Fail(m)) => {
            assert_eq!(m, "provider unavailable");
            assert_eq!(CallError::Fail(m).message(), "Call failure: provider unavailable");
        },
        other => panic!("expected a call failure, got {:?}", other),
    }
    // the primary call failed, so no thread was recorded for the channel
    match slack.plan_primary("sandbox") {
        PrimaryCall::Create { .. } => {},
        PrimaryCall::Update { .. } => panic!("no thread should be cached"),
    }
}
