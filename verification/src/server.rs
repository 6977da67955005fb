use vstd::prelude::*;
use vstd::string::StringExecFns;

verus! {

use crate::values::StrMap;
use crate::templates::TemplateCache;
use crate::templates::TemplateRegistry;
use crate::templates::TemplateError;
use crate::templates::template_error_text;
use crate::services::DefaultServiceRegistry;
use crate::services::SecretStore;
use crate::services::DeliveryTransport;
use crate::services::Notification;
use crate::services::Service;
use crate::services::FactoryError;
use crate::services::CallError;
use crate::services::factory_error_text;
use crate::services::call_error_text;
use crate::services::service_notify_transition;
use crate::services::setup_transition;

/// The uniform response envelope: the business outcome is carried in the
/// body, never as a transport-level error.
#[derive(Debug)]
pub struct Response {
    pub node: Node,
}

/// The outcome of one command: a phase of "Succeeded" or "Failed", and a
/// human-readable message.
#[derive(Debug)]
pub struct Node {
    pub phase: String,
    pub message: String,
}

/// The decoded inbound request.
#[derive(Debug)]
pub struct Input {
    pub template: Template,
}

/// The envelope layer the workflow engine wraps a plugin call in.
#[derive(Debug)]
pub struct Template {
    pub plugin: Plugin,
}

/// The plugin layer of the envelope, addressing this backend.
#[derive(Debug)]
pub struct Plugin {
    pub hermes: Command,
}

/// Configuration of one service instance to set up.
#[derive(Debug)]
pub struct ServiceConfig {
    /// The caller-chosen alias to bind the instance to.
    pub alias: String,
    /// The service type to instantiate.
    pub service: String,
    /// The service-specific configuration, validated by the factory.
    pub config: StrMap<String>,
}

/// The setup shape of the command payload.
#[derive(Debug)]
pub struct CommandSetup {
    pub setup: ServiceConfig,
}

/// Configuration of one notification to deliver.
#[derive(Debug)]
pub struct NotificationConfig {
    /// The alias of the instance to deliver through.
    pub target: String,
    /// The name of the template to render.
    pub template: String,
    /// The context to render the template with.
    pub context: StrMap<String>,
    /// The delivery configuration, validated by the service.
    pub config: StrMap<String>,
}

/// The notify shape of the command payload.
#[derive(Debug)]
pub struct CommandNotify {
    pub notify: NotificationConfig,
}

/// One decoded command: exactly one of the two shapes.
#[derive(Debug)]
pub enum Command {
    Setup(CommandSetup),
    Notify(CommandNotify),
}

impl Input {
    /// Every keyed value the command carries satisfies its representation
    /// invariant.
    pub open spec fn wf(&self) -> bool {
        match self.template.plugin.hermes {
            Command::Setup(cs) => cs.setup.config.wf(),
            Command::Notify(cn) => cn.notify.context.wf() && cn.notify.config.wf(),
        }
    }
}

/// Decodes the command from the two optional shapes of the wire payload.
///
/// The two shapes are mutually exclusive fields of the payload: decoding
/// fails when neither is present, and when both are, rather than silently
/// picking one.
pub fn decode_command(setup: Option<ServiceConfig>, notify: Option<NotificationConfig>) -> (r:
    Result<Command, String>)
    ensures
        setup matches Some(sc) ==> (notify is None ==> (r matches Ok(c) && c matches
            Command::Setup(cs) && cs.setup == sc)),
        notify matches Some(nc) ==> (setup is None ==> (r matches Ok(c) && c matches
            Command::Notify(cn) && cn.notify == nc)),
        setup is None && notify is None ==> (r matches Err(m) && m@
            == "no command found in the request"@),
        setup is Some && notify is Some ==> (r matches Err(m) && m@
            == "ambiguous command: both setup and notify are present"@),
    {
    match (setup, notify) {
        (Some(sc), None) => Ok(Command::Setup(CommandSetup { setup: sc })),
        (None, Some(nc)) => Ok(Command::Notify(CommandNotify { notify: nc })),
        (None, None) => Err("no command found in the request".to_owned()),
        (Some(_), Some(_)) => Err("ambiguous command: both setup and notify are present".to_owned()),
    }
}

/// Sets up a service instance and maps the outcome to the reply text.
pub fn setup<K: SecretStore>(
    config: ServiceConfig,
    services: &mut DefaultServiceRegistry,
    secrets: &K,
) -> (r: Result<String, String>)
    requires
        old(services).wf(),
        config.config.wf(),
    ensures
        final(services).wf(),
        final(services).services_view() == old(services).services_view(),
        exists|res: Result<(), FactoryError>|
            #[trigger] setup_transition(
                old(services).services_view(),
                old(services).instances_view(),
                final(services).instances_view(),
                config.alias@,
                config.service@,
                config.config,
                res,
            ) && (match res {
                Ok(_) => r matches Ok(m) && m@ == "Service setup successful"@,
                Err(e) => r matches Err(m) && m@ == factory_error_text(e),
            }),
        !old(services).services_view().contains_key(config.service@) ==> (final(services).instances_view() == old(services).instances_view() && (r matches Err(m) && m@
            == "Service not found"@)),
        old(services).services_view().contains_key(config.service@) && old(services).services_view()[config.service@] is Mock ==> (r matches Ok(m) && m@
            == "Service setup successful"@),
        r matches Ok(m) ==> m@ == "Service setup successful"@,
        r matches Err(m) ==> exists|e: FactoryError| m@ == factory_error_text(e),
{
    let res = services.setup(config.alias.as_str(), config.service.as_str(), config.config, secrets);
    match res {
        Ok(_) => Ok("Service setup successful".to_owned()),
        Err(e) => Err(e.message()),
    }
}

/// How the notify path treats the instance under the target alias: it moves
/// by one delivery transition, for a notification that carries the request's
/// context and the named template, and the delivery outcome maps to the
/// reply text.
pub open spec fn notify_outcome(
    pre: Service,
    post: Service,
    config: StrMap<String>,
    context: StrMap<String>,
    template_view: Map<Seq<char>, String>,
    r: Result<String, String>,
) -> bool {
    exists|n: Notification, res: Result<(), CallError>|
        n.context == context && n.template@ == template_view && #[trigger]
        service_notify_transition(pre, post, config, n, res) && (match res {
            Ok(_) => r matches Ok(m) && m@ == "Notification sent"@,
            Err(e) => r matches Err(m) && m@ == call_error_text(e),
        })
}

/// Renders and delivers a notification and maps the outcome to the reply
/// text.
///
/// The template is obtained first, through the cache; a failure there is
/// reported before the target alias is looked at.  An alias with no
/// instance set up fails with a message naming the alias.  Otherwise the
/// instance performs the delivery and only the entry under the target alias
/// may change.
///
/// The clauses below speak of the cache state after the call: a template
/// counts as available whether it was already cached or was fetched from
/// the registry during this call, and it is unavailable exactly when the
/// fetch failed.
pub fn notify<R: TemplateRegistry, T: DeliveryTransport>(
    config: NotificationConfig,
    services: &mut DefaultServiceRegistry,
    templates: &mut TemplateCache,
    registry: &R,
    transport: &mut T,
) -> (r: Result<String, String>)
    requires
        old(services).wf(),
        old(templates).wf(),
        config.context.wf(),
        config.config.wf(),
    ensures
        final(services).wf(),
        final(templates).wf(),
        final(services).services_view() == old(services).services_view(),
        old(templates)@.contains_key(config.template@) ==> final(templates)@ == old(templates)@,
        final(templates)@ == old(templates)@ || final(templates)@ == old(templates)@.insert(
            config.template@,
            final(templates)@[config.template@],
        ),
        !final(templates)@.contains_key(config.template@) ==> (final(templates)@ == old(templates)@ && final(services).instances_view() == old(services).instances_view() && *final(transport) == *old(transport) && (r matches Err(m) && exists|e: TemplateError|
            m@ == "Template retrieval failed: "@ + template_error_text(e))),
        final(services).instances_view() == old(services).instances_view() || final(services).instances_view() == old(services).instances_view().insert(
            config.target@,
            final(services).instances_view()[config.target@],
        ),
        !old(services).instances_view().contains_key(config.target@) ==> (final(services).instances_view() == old(services).instances_view() && *final(transport) == *old(transport)
            && r is Err),
        final(templates)@.contains_key(config.template@) && !old(services).instances_view().contains_key(config.target@) ==> (r matches Err(m) && m@
            == "Service instance \""@ + config.target@ + "\" not found"@),
        final(templates)@.contains_key(config.template@) && old(services).instances_view().contains_key(config.target@) ==> (final(services).instances_view()
            == old(services).instances_view().insert(
            config.target@,
            final(services).instances_view()[config.target@],
        ) && final(services).instances_view().contains_key(config.target@) && notify_outcome(
            old(services).instances_view()[config.target@],
            final(services).instances_view()[config.target@],
            config.config,
            config.context,
            final(templates)@[config.template@],
            r,
        )),
        final(templates)@.contains_key(config.template@) && old(services).instances_view().contains_key(config.target@) && old(services).instances_view()[config.target@] is Mock ==> (r matches Ok(m) && m@
            == "Notification sent"@ && final(services).instances_view()[config.target@] is Mock),
        r matches Ok(m) ==> m@ == "Notification sent"@,
        r matches Err(m) ==> (exists|e: TemplateError| m@ == "Template retrieval failed: "@
            + template_error_text(e)) || m@ == "Service instance \""@ + config.target@
            + "\" not found"@ || (exists|e: CallError| m@ == call_error_text(e)),
{
    let template = match templates.get(config.template.as_str(), registry) {
        Ok(t) => t,
        Err(e) => {
            let mut m = "Template retrieval failed: ".to_owned();
            m.append(e.message().as_str());
            return Err(m);
        },
    };
    let mut service = match services.take(config.target.as_str()) {
        Some(s) => s,
        None => {
            let mut m = "Service instance \"".to_owned();
            m.append(config.target.as_str());
            m.append("\" not found");
            return Err(m);
        },
    };
    let notification = Notification { template, context: config.context };
    let res = service.notify(config.config, notification, transport);
    let ghost gservice = service;
    services.put(config.target.as_str(), service);
    proof {
        assert(final(services).instances_view() =~= old(services).instances_view().insert(
            config.target@,
            gservice,
        ));
    }
    match res {
        Ok(_) => Ok("Notification sent".to_owned()),
        Err(e) => Err(e.message()),
    }
}

/// Routes one decoded command and wraps the outcome into the uniform
/// response envelope.
///
/// Business failures are carried in the body under phase "Failed"; nothing
/// escapes as an error of the dispatch itself.
pub fn dispatch<R: TemplateRegistry, K: SecretStore, T: DeliveryTransport>(
    input: Input,
    services: &mut DefaultServiceRegistry,
    templates: &mut TemplateCache,
    registry: &R,
    secrets: &K,
    transport: &mut T,
) -> (r: Response)
    requires
        old(services).wf(),
        old(templates).wf(),
        input.wf(),
    ensures
        final(services).wf(),
        final(templates).wf(),
        final(services).services_view() == old(services).services_view(),
        r.node.phase@ == "Succeeded"@ || r.node.phase@ == "Failed"@,
        input.template.plugin.hermes matches Command::Setup(cs) ==> (final(templates)@ == old(templates)@ && *final(transport) == *old(transport) && (exists|res: Result<(), FactoryError>|
            #[trigger] setup_transition(
                old(services).services_view(),
                old(services).instances_view(),
                final(services).instances_view(),
                cs.setup.alias@,
                cs.setup.service@,
                cs.setup.config,
                res,
            ) && (match res {
                Ok(_) => r.node.phase@ == "Succeeded"@ && r.node.message@
                    == "Service setup successful"@,
                Err(e) => r.node.phase@ == "Failed"@ && r.node.message@ == factory_error_text(e),
            })) && (!old(services).services_view().contains_key(cs.setup.service@) ==> (r.node.phase@
            == "Failed"@ && r.node.message@ == "Service not found"@ && final(services).instances_view() == old(services).instances_view())) && (old(services).services_view().contains_key(cs.setup.service@) && old(services).services_view()[cs.setup.service@] is Mock ==> (r.node.phase@ == "Succeeded"@
            && r.node.message@ == "Service setup successful"@))),
        input.template.plugin.hermes matches Command::Notify(cn) ==> ((old(templates)@.contains_key(cn.notify.template@) ==> final(templates)@ == old(templates)@) && (final(templates)@ == old(templates)@ || final(templates)@ == old(templates)@.insert(
            cn.notify.template@,
            final(templates)@[cn.notify.template@],
        )) && (final(services).instances_view() == old(services).instances_view() || final(services).instances_view() == old(services).instances_view().insert(
            cn.notify.target@,
            final(services).instances_view()[cn.notify.target@],
        )) && (!old(services).instances_view().contains_key(cn.notify.target@) ==> final(services).instances_view()
            == old(services).instances_view()) && (!final(templates)@.contains_key(
            cn.notify.template@,
        ) ==> (final(services).instances_view() == old(services).instances_view()
            && r.node.phase@ == "Failed"@ && exists|e: TemplateError|
            r.node.message@ == "Template retrieval failed: "@ + template_error_text(e)))
            && (final(templates)@.contains_key(
            cn.notify.template@,
        ) && !old(services).instances_view().contains_key(cn.notify.target@) ==> (r.node.phase@
            == "Failed"@ && r.node.message@ == "Service instance \""@ + cn.notify.target@
            + "\" not found"@)) && (final(templates)@.contains_key(cn.notify.template@) && old(services).instances_view().contains_key(cn.notify.target@) ==> (exists|h: Result<
            String,
            String,
        >|
            #[trigger] notify_outcome(
                old(services).instances_view()[cn.notify.target@],
                final(services).instances_view()[cn.notify.target@],
                cn.notify.config,
                cn.notify.context,
                final(templates)@[cn.notify.template@],
                h,
            ) && (match h {
                Ok(m) => r.node.phase@ == "Succeeded"@ && r.node.message@ == m@,
                Err(m) => r.node.phase@ == "Failed"@ && r.node.message@ == m@,
            }))) && (final(templates)@.contains_key(cn.notify.template@) && old(services).instances_view().contains_key(cn.notify.target@) && old(services).instances_view()[cn.notify.target@] is Mock ==> (r.node.phase@ == "Succeeded"@
            && r.node.message@ == "Notification sent"@))),
{
    let result = match input.template.plugin.hermes {
        Command::Setup(cs) => setup(cs.setup, services, secrets),
        Command::Notify(cn) => notify(cn.notify, services, templates, registry, transport),
    };
    match result {
        Ok(m) => Response { node: Node { phase: "Succeeded".to_owned(), message: m } },
        Err(m) => Response { node: Node { phase: "Failed".to_owned(), message: m } },
    }
}

} // verus!
