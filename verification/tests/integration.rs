use argo_hermes::server::dispatch;
use argo_hermes::server::Command;
use argo_hermes::server::CommandNotify;
use argo_hermes::server::CommandSetup;
use argo_hermes::server::Input;
use argo_hermes::server::NotificationConfig;
use argo_hermes::server::Plugin;
use argo_hermes::server::ServiceConfig;
use argo_hermes::server::Template;
use argo_hermes::services::DefaultServiceRegistry;
use argo_hermes::services::DeliveryTransport;
use argo_hermes::services::SecretStore;
use argo_hermes::services::Service;
use argo_hermes::services::ServiceKind;
use argo_hermes::templates::TemplateCache;
use argo_hermes::templates::TemplateError;
use argo_hermes::templates::TemplateRegistry;
use argo_hermes::values::StrMap;

struct MockTemplateRegistry;

impl TemplateRegistry for MockTemplateRegistry {
    fn get(&self, name: &str) -> Result<Vec<(String, String)>, TemplateError> {
        match name {
            "default" => Ok(vec![("primary".to_string(), "Message: {{ message}}".to_string())]),
            _ => Err(TemplateError::NotFound),
        }
    }
}

struct MockSecretStore;

impl SecretStore for MockSecretStore {
    fn get(&self, _name: &str) -> Result<String, String> {
        Ok("resolved-token".to_string())
    }
}

struct NullTransport;

impl DeliveryTransport for NullTransport {
    fn post_message(
        &mut self,
        _token: &str,
        _icon_emoji: Option<&str>,
        _channel: &str,
        _text: &str,
    ) -> Result<(String, String), String> {
        Err("no transport in this test".to_string())
    }

    fn update_message(
        &mut self,
        _token: &str,
        _icon_emoji: Option<&str>,
        _channel_id: &str,
        _thread_id: &str,
        _text: &str,
    ) -> Result<(String, String), String> {
        Err("no transport in this test".to_string())
    }

    fn reply_in_thread(
        &mut self,
        _token: &str,
        _icon_emoji: Option<&str>,
        _channel_id: &str,
        _thread_id: &str,
        _text: &str,
    ) -> Result<(String, String), String> {
        Err("no transport in this test".to_string())
    }
}

fn mock_registry() -> DefaultServiceRegistry {
    let mut table = StrMap::new();
    table.insert("mock", ServiceKind::Mock);
    DefaultServiceRegistry::with_services(table)
}

fn setup_input(alias: &str, service: &str, config: StrMap<String>) -> Input {
    Input {
        template: Template {
            plugin: Plugin {
                hermes: Command::Setup(CommandSetup {
                    setup: ServiceConfig {
                        alias: alias.to_string(),
                        service: service.to_string(),
                        config,
                    },
                }),
            },
        },
    }
}

fn notify_input(
    target: &str,
    template: &str,
    context: StrMap<String>,
    config: StrMap<String>,
) -> Input {
    Input {
        template: Template {
            plugin: Plugin {
                hermes: Command::Notify(CommandNotify {
                    notify: NotificationConfig {
                        target: target.to_string(),
                        template: template.to_string(),
                        context,
                        config,
                    },
                }),
            },
        },
    }
}

#[test]
fn test_setup_success() {
    let mut services = mock_registry();
    let mut templates = TemplateCache::new();
    let store = MockTemplateRegistry;
    let secrets = MockSecretStore;
    let mut transport = NullTransport;

    let mut config = StrMap::new();
    config.insert("token", "topsecret123".to_string());
    let input = setup_input("default", "mock", config);

    let res = dispatch(input, &mut services, &mut templates, &store, &secrets, &mut transport);
    assert_eq!(res.node.phase, "Succeeded");
    assert_eq!(res.node.message, "Service setup successful");

    let service = services.get("default").expect("not found");
    match service {
        Service::Mock(m) => {
            assert_eq!(m.service_config.get("token"), Some(&"topsecret123".to_string()));
            assert_eq!(m.calls.len(), 0);
        },
        _ => panic!("not found"),
    }
}

#[test]
fn test_setup_missing_service() {
    let mut services = mock_registry();
    let mut templates = TemplateCache::new();
    let store = MockTemplateRegistry;
    let secrets = MockSecretStore;
    let mut transport = NullTransport;

    let mut config = StrMap::new();
    config.insert("token", "topsecret123".to_string());
    let input = setup_input("default", "blabla", config);

    let res = dispatch(input, &mut services, &mut templates, &store, &secrets, &mut transport);
    assert_eq!(res.node.phase, "Failed");
    assert_eq!(res.node.message, "Service not found");
}

#[test]
fn test_notify_success() {
    let mut services = mock_registry();
    let mut templates = TemplateCache::new();
    let store = MockTemplateRegistry;
    let secrets = MockSecretStore;
    let mut transport = NullTransport;

    services
        .setup("default", "mock", StrMap::new(), &secrets)
        .expect("Setup failed");

    let mut context = StrMap::new();
    context.insert("message", "Hello world".to_string());
    let mut config = StrMap::new();
    config.insert("channel", "sandbox".to_string());
    let input = notify_input("default", "default", context, config);

    let res = dispatch(input, &mut services, &mut templates, &store, &secrets, &mut transport);
    assert_eq!(res.node.phase, "Succeeded");
    assert_eq!(res.node.message, "Notification sent");

    let service = services.get("default").expect("not found");
    match service {
        Service::Mock(m) => {
            let calls = &m.calls;
            assert_eq!(calls.len(), 1);
            let call = &calls[0];
            assert_eq!(call.config.get("channel"), Some(&"sandbox".to_string()));
            let rendered = call.notification.render("primary").unwrap();
            assert_eq!(rendered, "Message: Hello world");
        },
        _ => panic!("not found"),
    }
}

#[test]
fn test_notify_unknown_target_names_the_alias() {
    let mut services = mock_registry();
    let mut templates = TemplateCache::new();
    let store = MockTemplateRegistry;
    let secrets = MockSecretStore;
    let mut transport = NullTransport;

    let input = notify_input("ghost", "default", StrMap::new(), StrMap::new());
    let res = dispatch(input, &mut services, &mut templates, &store, &secrets, &mut transport);
    assert_eq!(res.node.phase, "Failed");
    assert_eq!(res.node.message, "Service instance \"ghost\" not found");
    assert!(res.node.message.contains("ghost"));
}

#[test]
fn test_notify_unknown_template_reports_retrieval_failure() {
    let mut services = mock_registry();
    let mut templates = TemplateCache::new();
    let store = MockTemplateRegistry;
    let secrets = MockSecretStore;
    let mut transport = NullTransport;

    services
        .setup("default", "mock", StrMap::new(), &secrets)
        .expect("Setup failed");

    let input = notify_input("default", "absent", StrMap::new(), StrMap::new());
    let res = dispatch(input, &mut services, &mut templates, &store, &secrets, &mut transport);
    assert_eq!(res.node.phase, "Failed");
    assert_eq!(res.node.message, "Template retrieval failed: Template not found");
}
