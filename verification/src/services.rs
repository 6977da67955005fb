use vstd::prelude::*;
use vstd::string::StringExecFns;

verus! {

use crate::values::StrMap;
use crate::templates::Template;

/// Failure to set a service instance up.
#[derive(Debug, PartialEq)]
pub enum FactoryError {
    /// No service of the requested type exists.
    ServiceNotFound,
    /// The service configuration was rejected.
    ConfigError(String),
}

/// The human-readable text of a factory error.
pub open spec fn factory_error_text(e: FactoryError) -> Seq<char> {
    match e {
        FactoryError::ServiceNotFound => "Service not found"@,
        FactoryError::ConfigError(s) => "Invalid config: "@ + s@,
    }
}

impl FactoryError {
    /// Describes the error in one line of text.
    pub fn message(&self) -> (r: String)
        ensures
            r@ == factory_error_text(*self),
    {
        match self {
            FactoryError::ServiceNotFound => "Service not found".to_owned(),
            FactoryError::ConfigError(s) => {
                let mut m = "Invalid config: ".to_owned();
                m.append(s.as_str());
                m
            },
        }
    }
}

/// Failure to deliver a notification.
#[derive(Debug, PartialEq)]
pub enum CallError {
    /// The delivery transport rejected the call or reported an error.
    Fail(String),
    /// The delivery configuration was rejected.
    ConfigError(String),
    /// A sub-template could not be rendered.
    RenderError(String),
}

/// The human-readable text of a call error.
pub open spec fn call_error_text(e: CallError) -> Seq<char> {
    match e {
        CallError::Fail(s) => "Call failure: "@ + s@,
        CallError::ConfigError(s) => "Invalid config: "@ + s@,
        CallError::RenderError(s) => "Render error: "@ + s@,
    }
}

impl CallError {
    /// Describes the error in one line of text.
    pub fn message(&self) -> (r: String)
        ensures
            r@ == call_error_text(*self),
    {
        let (head, s) = match self {
            CallError::Fail(s) => ("Call failure: ", s),
            CallError::ConfigError(s) => ("Invalid config: ", s),
            CallError::RenderError(s) => ("Render error: ", s),
        };
        let mut m = head.to_owned();
        m.append(s.as_str());
        m
    }
}

/// Failure to render a sub-template.
#[derive(Debug, PartialEq)]
pub enum RenderError {
    /// The requested sub-template is absent from the template.
    SubTemplateNotFound,
    /// The template engine rejected the template or the context.
    RenderError(String),
}

/// The human-readable text of a render error.
pub open spec fn render_error_text(e: RenderError) -> Seq<char> {
    match e {
        RenderError::SubTemplateNotFound => "Sub-template not found"@,
        RenderError::RenderError(s) => s@,
    }
}

impl RenderError {
    /// Describes the error in one line of text.
    pub fn message(&self) -> (r: String)
        ensures
            r@ == render_error_text(*self),
    {
        match self {
            RenderError::SubTemplateNotFound => "Sub-template not found".to_owned(),
            RenderError::RenderError(s) => s.clone(),
        }
    }
}

/// The text the template engine produces for a template and a context, or
/// the engine's error text when it rejects them.
pub uninterp spec fn rendered(template: Seq<char>, context: Map<Seq<char>, String>) -> Result<
    Seq<char>,
    Seq<char>,
>;

/// Relies on handlebars::Handlebars::render_template, with strict mode
/// enabled, to render one template string against a keyed context.  The
/// outcome is a function of the template text and the context mapping alone:
/// the engine compiles the template and substitutes values looked up by key,
/// and the context is handed over in key order.
#[verifier::external_body]
fn render_template_strict(template: &str, context: &StrMap<String>) -> (r: Result<String, String>)
    ensures
        r matches Ok(s) ==> rendered(template@, context@) matches Ok(t) && s@ == t,
        r matches Err(e) ==> rendered(template@, context@) matches Err(t) && e@ == t,
{
    let data: std::collections::BTreeMap<&str, &str> = context
        .entries
        .iter()
        .map(|p| (p.0.as_str(), p.1.as_str()))
        .collect();
    let mut engine = handlebars::Handlebars::new();
    engine.set_strict_mode(true);
    engine.render_template(template, &data).map_err(|e| e.to_string())
}

/// One notification to send: the raw template fetched for it, and the
/// context to render the template with.
#[derive(Debug)]
pub struct Notification {
    /// The raw notification template.
    pub template: Template,
    /// The context to render the template with.
    pub context: StrMap<String>,
}

impl Notification {
    /// Both keyed stores satisfy their representation invariant.
    pub open spec fn wf(&self) -> bool {
        self.template.wf() && self.context.wf()
    }

    /// Renders one named sub-template of the notification.
    ///
    /// Rendering is strict: a reference to a value absent from the context
    /// fails rather than rendering blank text, so a mistyped context key
    /// surfaces here instead of producing malformed output.
    pub fn render(&self, subtemplate: &str) -> (r: Result<String, RenderError>)
        requires
            self.wf(),
        ensures
            !self.template@.contains_key(subtemplate@) ==> r == Err::<String, RenderError>(
                RenderError::SubTemplateNotFound,
            ),
            self.template@.contains_key(subtemplate@) ==> match rendered(
                self.template@[subtemplate@]@,
                self.context@,
            ) {
                Ok(t) => r matches Ok(s) && s@ == t,
                Err(t) => r matches Err(e) && e matches RenderError::RenderError(m) && m@
                    == "Failed to render: "@ + t,
            },
    {
        let tpl = match self.template.get(subtemplate) {
            Some(t) => t,
            None => { return Err(RenderError::SubTemplateNotFound) },
        };
        match render_template_strict(tpl.as_str(), &self.context) {
            Ok(s) => Ok(s),
            Err(e) => {
                let mut m = "Failed to render: ".to_owned();
                m.append(e.as_str());
                Err(RenderError::RenderError(m))
            },
        }
    }
}

/// Resolves named secrets, such as an API token, from external storage.
/// Implementations live outside this crate — a Kubernetes Secret client, or
/// a test double — so nothing is assumed about them here.
pub trait SecretStore {
    /// Retrieves the token stored under `name`, or a description of the
    /// failure.
    fn get(&self, name: &str) -> Result<String, String>;
}

/// The outbound side of a provider with channel-and-thread semantics: one
/// call creates or updates a channel message, another replies into the
/// thread under it.  Each call returns the provider's channel and thread
/// identifiers, or the provider's error text.  Implementations live outside
/// this crate — an HTTP client, or a test double — so nothing is assumed
/// about them here: callers state what holds of their own state whatever an
/// implementation returns.
pub trait DeliveryTransport {
    /// Posts a new channel message under the given credentials; returns the
    /// remote channel and thread identifiers it was assigned.
    fn post_message(
        &mut self,
        token: &str,
        icon_emoji: Option<&str>,
        channel: &str,
        text: &str,
    ) -> Result<(String, String), String>;

    /// Overwrites the message previously posted to the remote channel and
    /// thread; returns the identifiers the provider reports back.
    fn update_message(
        &mut self,
        token: &str,
        icon_emoji: Option<&str>,
        channel_id: &str,
        thread_id: &str,
        text: &str,
    ) -> Result<(String, String), String>;

    /// Posts a reply into the thread under an earlier message; returns the
    /// identifiers the provider reports back.
    fn reply_in_thread(
        &mut self,
        token: &str,
        icon_emoji: Option<&str>,
        channel_id: &str,
        thread_id: &str,
        text: &str,
    ) -> Result<(String, String), String>;
}

/// One notification call recorded by the mock service.
#[derive(Debug)]
pub struct NotificationCall {
    /// The delivery configuration the call carried.
    pub config: StrMap<String>,
    /// The notification the call carried.
    pub notification: Notification,
}

/// A service that records notifications instead of delivering them.
///
/// It keeps the configuration it was set up with and every call made to it,
/// and exposes both directly, so a test can observe what reached the service
/// without reaching behind the service abstraction.
#[derive(Debug)]
pub struct MockService {
    /// The configuration the instance was set up with.
    pub service_config: StrMap<String>,
    /// Every notification call made to the instance, oldest first.
    pub calls: Vec<NotificationCall>,
}

impl MockService {
    /// Records the call and reports success.
    pub fn notify(&mut self, config: StrMap<String>, notification: Notification) -> (r: Result<
        (),
        CallError,
    >)
        ensures
            final(self).calls@ == old(self).calls@.push(
                NotificationCall { config, notification },
            ),
            final(self).service_config == old(self).service_config,
            r == Ok::<(), CallError>(()),
    {
        self.calls.push(NotificationCall { config, notification });
        Ok(())
    }
}

/// A configured notification target: one of the service implementations the
/// crate knows, bound to the configuration it was set up with.
#[derive(Debug)]
pub enum Service {
    /// The chat service with channel-thread delivery.
    Slack(crate::slack::Slack),
    /// The recording service used by tests.
    Mock(MockService),
}

/// How one delivery may change a service instance, and what its outcome
/// says: the kind of the instance never changes, a chat instance moves by
/// `notify_transition`, and the mock records the call and succeeds.
pub open spec fn service_notify_transition(
    pre: Service,
    post: Service,
    config: StrMap<String>,
    n: Notification,
    r: Result<(), CallError>,
) -> bool {
    match pre {
        Service::Slack(s) => post matches Service::Slack(s2) && crate::slack::notify_transition(
            s,
            s2,
            config@,
            n,
            r,
        ),
        Service::Mock(m) => post matches Service::Mock(m2) && m2.service_config
            == m.service_config && m2.calls@ == m.calls@.push(
            NotificationCall { config, notification: n },
        ) && r == Ok::<(), CallError>(()),
    }
}

impl Service {
    /// The instance's own representation invariant.
    pub open spec fn wf(&self) -> bool {
        match self {
            Service::Slack(s) => s.wf(),
            Service::Mock(_) => true,
        }
    }

    /// Sends a notification through this instance.
    pub fn notify<T: DeliveryTransport>(
        &mut self,
        config: StrMap<String>,
        notification: Notification,
        transport: &mut T,
    ) -> (r: Result<(), CallError>)
        requires
            old(self).wf(),
            config.wf(),
            notification.wf(),
        ensures
            final(self).wf(),
            service_notify_transition(*old(self), *final(self), config, notification, r),
            old(self) matches Service::Mock(_) ==> *final(transport) == *old(transport),
            old(self) matches Service::Slack(_) && (!config@.contains_key("channel"@)
                || !notification.template@.contains_key("primary"@) || rendered(
                notification.template@["primary"@]@,
                notification.context@,
            ) is Err) ==> *final(transport) == *old(transport),
    {
        match self {
            Service::Slack(s) => s.notify(config, notification, transport),
            Service::Mock(m) => m.notify(config, notification),
        }
    }
}

/// Which construction a service-type name is bound to.
#[derive(Clone, Copy, Debug, PartialEq, Eq, Structural)]
pub enum ServiceKind {
    /// Built by `SlackFactory::from_config`.
    Slack,
    /// Built by recording the raw configuration.
    Mock,
}

/// How setting an instance up may change the alias-to-instance table.
///
/// An unknown service type is rejected and changes nothing; a known one
/// builds an instance from the configuration and, on success, binds the
/// alias to it, replacing any instance the alias held before.
pub open spec fn setup_transition(
    table: Map<Seq<char>, ServiceKind>,
    pre: Map<Seq<char>, Service>,
    post: Map<Seq<char>, Service>,
    alias: Seq<char>,
    service_name: Seq<char>,
    config: StrMap<String>,
    r: Result<(), FactoryError>,
) -> bool {
    &&& (!table.contains_key(service_name) ==> r == Err::<(), FactoryError>(
        FactoryError::ServiceNotFound,
    ) && post == pre)
    &&& (table.contains_key(service_name) ==> match table[service_name] {
        ServiceKind::Mock => r == Ok::<(), FactoryError>(()) && (exists|m: MockService|
            m.service_config == config && m.calls@ == Seq::<NotificationCall>::empty() && post
                == pre.insert(alias, Service::Mock(m))),
        ServiceKind::Slack => {
            &&& (!config@.contains_key("token"@) ==> (r matches Err(e) && e matches
                FactoryError::ConfigError(msg) && msg@ == "missing field `token`"@))
            &&& (r is Ok ==> exists|s: crate::slack::Slack|
                s.wf() && s.channels@ == Map::<Seq<char>, crate::slack::Channel>::empty() && post
                    == pre.insert(alias, Service::Slack(s)))
            &&& (r is Err ==> post == pre && (r matches Err(e) && e matches
                FactoryError::ConfigError(_)))
        },
    })
}

/// A registry of all the active service instances.
///
/// The table of available service types is fixed when the registry is
/// built; instances are set up under caller-chosen aliases at runtime, so a
/// single service type can run several times under different aliases.
#[derive(Debug)]
pub struct DefaultServiceRegistry {
    services: StrMap<ServiceKind>,
    instances: StrMap<Service>,
}

impl DefaultServiceRegistry {
    /// The table of available service types, by name.
    pub closed spec fn services_view(&self) -> Map<Seq<char>, ServiceKind> {
        self.services@
    }

    /// The live instances, by alias.
    pub closed spec fn instances_view(&self) -> Map<Seq<char>, Service> {
        self.instances@
    }

    /// Both stores satisfy their representation invariant, and so does every
    /// live instance.
    pub closed spec fn wf(&self) -> bool {
        &&& self.services.wf()
        &&& self.instances.wf()
        &&& forall|k: Seq<char>|
            self.instances@.contains_key(k) ==> (#[trigger] self.instances@[k]).wf()
    }

    /// A registry offering the built-in service types.
    pub fn with_default_services() -> (r: Self)
        ensures
            r.wf(),
            r.services_view() == Map::<Seq<char>, ServiceKind>::empty().insert(
                "slack"@,
                ServiceKind::Slack,
            ),
            r.instances_view() == Map::<Seq<char>, Service>::empty(),
    {
        let mut services = StrMap::new();
        services.insert("slack", ServiceKind::Slack);
        Self::with_services(services)
    }

    /// A registry offering exactly the given service types.
    pub fn with_services(services: StrMap<ServiceKind>) -> (r: Self)
        requires
            services.wf(),
        ensures
            r.wf(),
            r.services_view() == services@,
            r.instances_view() == Map::<Seq<char>, Service>::empty(),
    {
        DefaultServiceRegistry { services, instances: StrMap::new() }
    }

    /// Sets up a new service instance under an alias.
    ///
    /// The service type is looked up in the fixed table; an unknown type is
    /// rejected without touching the registry.  A known type builds an
    /// instance from the configuration — the chat service resolves its token
    /// through the secret store — and on success the alias is bound to the
    /// new instance, replacing any instance it held before, so a reader of
    /// the alias always sees one coherent instance.
    pub fn setup<K: SecretStore>(
        &mut self,
        alias: &str,
        service_name: &str,
        config: StrMap<String>,
        secrets: &K,
    ) -> (r: Result<(), FactoryError>)
        requires
            old(self).wf(),
            config.wf(),
        ensures
            final(self).wf(),
            final(self).services_view() == old(self).services_view(),
            setup_transition(
                old(self).services_view(),
                old(self).instances_view(),
                final(self).instances_view(),
                alias@,
                service_name@,
                config,
                r,
            ),
    {
        let kind = match self.services.get(service_name) {
            Some(k) => *k,
            None => {
                return Err(FactoryError::ServiceNotFound);
            },
        };
        match kind {
            ServiceKind::Mock => {
                let instance = MockService { service_config: config, calls: Vec::new() };
                proof {
                    assert(instance.calls@ =~= Seq::<NotificationCall>::empty());
                }
                let ghost witness = instance;
                self.instances.insert(alias, Service::Mock(instance));
                proof {
                    assert(self.instances@ == old(self).instances@.insert(
                        alias@,
                        Service::Mock(witness),
                    ));
                }
                Ok(())
            },
            ServiceKind::Slack => {
                match crate::slack::SlackFactory::from_config(&config, secrets) {
                    Ok(s) => {
                        let ghost witness = s;
                        self.instances.insert(alias, Service::Slack(s));
                        proof {
                            assert(self.instances@ == old(self).instances@.insert(
                                alias@,
                                Service::Slack(witness),
                            ));
                        }
                        Ok(())
                    },
                    Err(e) => Err(e),
                }
            },
        }
    }

    /// Retrieves the service instance set up under an alias, if any.
    pub fn get<'a>(&'a self, alias: &str) -> (r: Option<&'a Service>)
        requires
            self.wf(),
        ensures
            match r {
                Some(s) => self.instances_view().contains_key(alias@) && *s
                    == self.instances_view()[alias@],
                None => !self.instances_view().contains_key(alias@),
            },
    {
        self.instances.get(alias)
    }

    /// Takes the instance set up under an alias out of the registry; the
    /// sequential counterpart of handing a caller a shared handle.
    pub(crate) fn take(&mut self, alias: &str) -> (r: Option<Service>)
        requires
            old(self).wf(),
        ensures
            final(self).wf(),
            final(self).services_view() == old(self).services_view(),
            match r {
                Some(s) => old(self).instances_view().contains_key(alias@)
                    && s == old(self).instances_view()[alias@]
                    && s.wf()
                    && final(self).instances_view() == old(self).instances_view().remove(alias@),
                None => !old(self).instances_view().contains_key(alias@)
                    && final(self).instances_view() == old(self).instances_view(),
            },
    {
        self.instances.remove(alias)
    }

    /// Puts an instance back under an alias.
    pub(crate) fn put(&mut self, alias: &str, instance: Service)
        requires
            old(self).wf(),
            instance.wf(),
        ensures
            final(self).wf(),
            final(self).services_view() == old(self).services_view(),
            final(self).instances_view() == old(self).instances_view().insert(alias@, instance),
    {
        self.instances.insert(alias, instance);
    }
}

/// Replacement on repeated setup: when two setups of the same alias both
/// succeed, the second instance alone stands under the alias — the registry
/// never shows a blend of the two — that instance is built from the second
/// configuration alone, and no other alias is touched.
pub proof fn lemma_setup_replaces(
    table: Map<Seq<char>, ServiceKind>,
    pre: Map<Seq<char>, Service>,
    mid: Map<Seq<char>, Service>,
    post: Map<Seq<char>, Service>,
    alias: Seq<char>,
    name1: Seq<char>,
    name2: Seq<char>,
    config1: StrMap<String>,
    config2: StrMap<String>,
)
    requires
        setup_transition(table, pre, mid, alias, name1, config1, Ok(())),
        setup_transition(table, mid, post, alias, name2, config2, Ok(())),
    ensures
        post.contains_key(alias),
        post == mid.insert(alias, post[alias]),
        post.remove(alias) == pre.remove(alias),
        table.contains_key(name2) && table[name2] is Mock ==> (post[alias] matches Service::Mock(
            m,
        ) && m.service_config == config2 && m.calls@ == Seq::<NotificationCall>::empty()),
        table.contains_key(name2) && table[name2] is Slack ==> (post[alias] matches
            Service::Slack(s) && s.channels@ == Map::<Seq<char>, crate::slack::Channel>::empty()),
{
    assert(table.contains_key(name1));
    assert(table.contains_key(name2));
    assert(exists|v: Service| mid == pre.insert(alias, v)) by {
        match table[name1] {
            ServiceKind::Mock => {
                let m = choose|m: MockService|
                    m.service_config == config1 && m.calls@ == Seq::<NotificationCall>::empty()
                        && mid == pre.insert(alias, Service::Mock(m));
                assert(mid == pre.insert(alias, Service::Mock(m)));
            },
            ServiceKind::Slack => {
                let s = choose|s: crate::slack::Slack|
                    s.wf() && s.channels@ == Map::<Seq<char>, crate::slack::Channel>::empty()
                        && mid == pre.insert(alias, Service::Slack(s));
                assert(mid == pre.insert(alias, Service::Slack(s)));
            },
        }
    }
    let v1 = choose|v: Service| mid == pre.insert(alias, v);
    match table[name2] {
        ServiceKind::Mock => {
            let m = choose|m: MockService|
                m.service_config == config2 && m.calls@ == Seq::<NotificationCall>::empty()
                    && post == mid.insert(alias, Service::Mock(m));
            assert(post == mid.insert(alias, Service::Mock(m)));
            assert(post[alias] == Service::Mock(m));
        },
        ServiceKind::Slack => {
            let s = choose|s: crate::slack::Slack|
                s.wf() && s.channels@ == Map::<Seq<char>, crate::slack::Channel>::empty()
                    && post == mid.insert(alias, Service::Slack(s));
            assert(post == mid.insert(alias, Service::Slack(s)));
            assert(post[alias] == Service::Slack(s));
        },
    }
    assert(post =~= mid.insert(alias, post[alias]));
    assert(post.remove(alias) =~= pre.remove(alias));
}

} // verus!
