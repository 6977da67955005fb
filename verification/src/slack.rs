use vstd::prelude::*;
use vstd::string::StringExecFns;

verus! {

use crate::values::StrMap;
use crate::services::CallError;
use crate::services::FactoryError;
use crate::services::Notification;
use crate::services::DeliveryTransport;
use crate::services::SecretStore;
use crate::services::rendered;

/// The remote identifiers cached for a logical channel once its thread
/// exists: the provider's channel identifier and the thread identifier of
/// the first message posted there.
#[derive(Debug)]
pub struct Channel {
    pub channel_id: String,
    pub thread_id: String,
}

impl Clone for Channel {
    /// A copy that carries the same identifiers.
    fn clone(&self) -> (r: Self)
        ensures
            r == *self,
    {
        Channel { channel_id: self.channel_id.clone(), thread_id: self.thread_id.clone() }
    }
}

/// The validated configuration of a chat service instance.
#[derive(Debug)]
pub struct SlackConfig {
    /// The bearer token resolved from the secret store.
    pub token: String,
    /// An optional emoji shown beside delivered messages.
    pub icon_emoji: Option<String>,
}

/// A chat service instance with channel-thread delivery.
///
/// Per logical channel the instance remembers whether a thread already
/// exists.  The first delivery to a channel posts a new message and records
/// the remote identifiers the provider assigned; every later delivery
/// updates that message in place and replies into its thread.
#[derive(Debug)]
pub struct Slack {
    /// The validated configuration the instance was built with.
    pub config: SlackConfig,
    /// Thread state: logical channel name to cached remote identifiers.
    pub channels: StrMap<Channel>,
}

/// Builds chat service instances from raw configuration, resolving the
/// configured token through the secret store.
#[derive(Debug)]
pub struct SlackFactory;

impl SlackFactory {
    /// Instantiates the chat service from configuration.
    ///
    /// The configuration must name a secret under "token"; the secret store
    /// decides whether that secret resolves.  An "icon_emoji" entry is
    /// carried over verbatim when present.  A fresh instance starts with no
    /// cached thread state.
    pub fn from_config<K: SecretStore>(config: &StrMap<String>, secrets: &K) -> (r: Result<
        Slack,
        FactoryError,
    >)
        requires
            config.wf(),
        ensures
            !config@.contains_key("token"@) ==> (r matches Err(e) && e matches
                FactoryError::ConfigError(m) && m@ == "missing field `token`"@),
            r matches Ok(s) ==> {
                &&& s.wf()
                &&& s.channels@ == Map::<Seq<char>, Channel>::empty()
                &&& config@.contains_key("token"@)
                &&& (config@.contains_key("icon_emoji"@) ==> (s.config.icon_emoji matches Some(i)
                    && i@ == config@["icon_emoji"@]@))
                &&& (!config@.contains_key("icon_emoji"@) ==> s.config.icon_emoji is None)
            },
            r matches Err(e) ==> e matches FactoryError::ConfigError(_),
    {
        let token_name = match config.get("token") {
            Some(t) => t,
            None => {
                return Err(FactoryError::ConfigError("missing field `token`".to_owned()));
            },
        };
        let token = match secrets.get(token_name.as_str()) {
            Ok(t) => t,
            Err(e) => {
                let mut m = "Invalid token secret: ".to_owned();
                m.append(e.as_str());
                return Err(FactoryError::ConfigError(m));
            },
        };
        let icon_emoji = match config.get("icon_emoji") {
            Some(i) => Some(i.clone()),
            None => None,
        };
        Ok(Slack { config: SlackConfig { token, icon_emoji }, channels: StrMap::new() })
    }
}

/// How one delivery may change a chat instance, and what its outcome says.
///
/// This relation is the contract of `Slack::notify`: every clause is stated
/// over the instance's thread state before and after the call, the delivery
/// configuration, the notification, and the result.  The transport's own
/// behaviour is not modelled, so clauses that depend on it say what holds
/// whatever the transport returned.
pub open spec fn notify_transition(
    pre: Slack,
    post: Slack,
    config: Map<Seq<char>, String>,
    n: Notification,
    r: Result<(), CallError>,
) -> bool {
    &&& post.config == pre.config
    &&& (!config.contains_key("channel"@) ==> (r matches Err(e) && e matches
        CallError::ConfigError(m) && m@ == "missing field `channel`"@ && post == pre))
    &&& (config.contains_key("channel"@) ==> {
        let ch = config["channel"@]@;
        &&& (!n.template@.contains_key("primary"@) ==> (r matches Err(e) && e matches
            CallError::RenderError(m) && m@ == "Sub-template not found"@ && post == pre))
        &&& (n.template@.contains_key("primary"@) && rendered(
            n.template@["primary"@]@,
            n.context@,
        ) is Err ==> (r matches Err(e) && e matches CallError::RenderError(m) && m@
            == "Failed to render: "@ + rendered(n.template@["primary"@]@, n.context@)->Err_0
            && post == pre))
        &&& (pre.channels@.contains_key(ch) ==> post.channels@ == pre.channels@)
        &&& (!pre.channels@.contains_key(ch) ==> post.channels@ == pre.channels@ || exists|c:
            Channel| post.channels@ == pre.channels@.insert(ch, c))
        &&& (r is Ok ==> post.channels@.contains_key(ch))
        &&& (!n.template@.contains_key("secondary"@) ==> r is Err)
        &&& (n.template@.contains_key("primary"@) && rendered(
            n.template@["primary"@]@,
            n.context@,
        ) is Ok && !n.template@.contains_key("secondary"@) ==> (r matches Err(e) && (e matches
            CallError::Fail(_) || (e matches CallError::RenderError(m) && m@
            == "Sub-template not found"@))))
        &&& (n.template@.contains_key("primary"@) && rendered(
            n.template@["primary"@]@,
            n.context@,
        ) is Ok && n.template@.contains_key("secondary"@) && rendered(
            n.template@["secondary"@]@,
            n.context@,
        ) is Err ==> (r matches Err(e) && (e matches CallError::Fail(_) || (e matches
            CallError::RenderError(m) && m@ == "Failed to render: "@ + rendered(
            n.template@["secondary"@]@,
            n.context@,
        )->Err_0))))
        &&& (r is Ok ==> n.template@.contains_key("primary"@) && rendered(
            n.template@["primary"@]@,
            n.context@,
        ) is Ok && n.template@.contains_key("secondary"@) && rendered(
            n.template@["secondary"@]@,
            n.context@,
        ) is Ok)
        &&& (r matches Err(e) ==> !(e matches CallError::ConfigError(_)))
        &&& (n.template@.contains_key("primary"@) && rendered(
            n.template@["primary"@]@,
            n.context@,
        ) is Ok && n.template@.contains_key("secondary"@) && rendered(
            n.template@["secondary"@]@,
            n.context@,
        ) is Ok ==> r is Ok || (r matches Err(e) && e matches CallError::Fail(_)))
    })
}

/// The remote identifiers a second delivery to a channel would update, when
/// a thread is already cached for it.
pub open spec fn primary_update_target(s: Slack, ch: Seq<char>) -> Option<(Seq<char>, Seq<char>)> {
    if s.channels@.contains_key(ch) {
        Some((s.channels@[ch].channel_id@, s.channels@[ch].thread_id@))
    } else {
        None
    }
}

/// The primary call planned for a logical channel: post a new channel
/// message, or update the one whose thread is already cached.
#[derive(Debug)]
pub enum PrimaryCall {
    /// No thread is cached: post a new message to the named channel.
    Create { channel: String },
    /// A thread is cached: update the message behind these identifiers.
    Update { channel_id: String, thread_id: String },
}

impl Slack {
    /// The thread-state store satisfies its representation invariant.
    pub open spec fn wf(&self) -> bool {
        self.channels.wf()
    }

    /// Chooses the primary call for a logical channel: the first delivery to
    /// a channel creates a message, later ones update the cached one.
    pub fn plan_primary(&self, channel: &str) -> (p: PrimaryCall)
        requires
            self.wf(),
        ensures
            !self.channels@.contains_key(channel@) ==> (p matches PrimaryCall::Create {
                channel: c,
            } && c@ == channel@),
            self.channels@.contains_key(channel@) ==> (p matches PrimaryCall::Update {
                channel_id,
                thread_id,
            } && primary_update_target(*self, channel@) == Some((channel_id@, thread_id@))),
    {
        match self.channels.get(channel) {
            Some(c) => PrimaryCall::Update {
                channel_id: c.channel_id.clone(),
                thread_id: c.thread_id.clone(),
            },
            None => PrimaryCall::Create { channel: channel.to_owned() },
        }
    }

    /// The thread state cached for a logical channel, if any.
    fn get_channel(&self, name: &str) -> (r: Option<Channel>)
        requires
            self.wf(),
        ensures
            match r {
                Some(c) => self.channels@.contains_key(name@) && c == self.channels@[name@],
                None => !self.channels@.contains_key(name@),
            },
    {
        match self.channels.get(name) {
            Some(c) => Some(c.clone()),
            None => None,
        }
    }

    /// Records the thread created for a logical channel.
    fn update_channel(&mut self, name: &str, channel: Channel)
        requires
            old(self).wf(),
        ensures
            final(self).wf(),
            final(self).channels@ == old(self).channels@.insert(name@, channel),
            final(self).config == old(self).config,
    {
        self.channels.insert(name, channel);
    }

    /// Renders one sub-template of the notification, folding render failures
    /// into the delivery error type.
    fn render_part(notification: &Notification, subtemplate: &str) -> (r: Result<String, CallError>)
        requires
            notification.wf(),
        ensures
            !notification.template@.contains_key(subtemplate@) ==> (r matches Err(e) && e matches
                CallError::RenderError(m) && m@ == "Sub-template not found"@),
            notification.template@.contains_key(subtemplate@) ==> match rendered(
                notification.template@[subtemplate@]@,
                notification.context@,
            ) {
                Ok(t) => r matches Ok(s) && s@ == t,
                Err(t) => r matches Err(e) && e matches CallError::RenderError(m) && m@
                    == "Failed to render: "@ + t,
            },
    {
        match notification.render(subtemplate) {
            Ok(s) => Ok(s),
            Err(e) => Err(CallError::RenderError(e.message())),
        }
    }

    /// Delivers a notification to the channel named by the delivery
    /// configuration.
    ///
    /// The "primary" sub-template is rendered first; with no thread cached
    /// for the channel the rendered text is posted as a new message and the
    /// remote identifiers the provider assigned are recorded, otherwise the
    /// cached message is updated in place.  The "secondary" sub-template is
    /// then rendered and posted as a reply into the same thread.  A failure
    /// of the secondary message does not roll the primary one back.
    pub fn notify<T: DeliveryTransport>(
        &mut self,
        config: StrMap<String>,
        notification: Notification,
        transport: &mut T,
    ) -> (r: Result<(), CallError>)
        requires
            old(self).wf(),
            config.wf(),
            notification.wf(),
        ensures
            final(self).wf(),
            notify_transition(*old(self), *final(self), config@, notification, r),
            !config@.contains_key("channel"@) || !notification.template@.contains_key("primary"@)
                || rendered(notification.template@["primary"@]@, notification.context@) is Err
                ==> *final(transport) == *old(transport),
    {
        let channel_name = match config.get("channel") {
            Some(c) => c.clone(),
            None => {
                return Err(CallError::ConfigError("missing field `channel`".to_owned()));
            },
        };
        let plan = self.plan_primary(channel_name.as_str());
        let token = self.config.token.clone();
        let icon = match &self.config.icon_emoji {
            Some(s) => Some(s.clone()),
            None => None,
        };

        let text = match Self::render_part(&notification, "primary") {
            Ok(t) => t,
            Err(e) => {
                return Err(e);
            },
        };
        let icon_ref = match &icon {
            Some(s) => Some(s.as_str()),
            None => None,
        };
        let ids = match &plan {
            PrimaryCall::Update { channel_id, thread_id } => transport.update_message(
                token.as_str(),
                icon_ref,
                channel_id.as_str(),
                thread_id.as_str(),
                text.as_str(),
            ),
            PrimaryCall::Create { channel } => transport.post_message(
                token.as_str(),
                icon_ref,
                channel.as_str(),
                text.as_str(),
            ),
        };
        let (remote_channel, remote_thread) = match ids {
            Ok(ids) => ids,
            Err(e) => {
                return Err(CallError::Fail(e));
            },
        };
        match &plan {
            PrimaryCall::Create { .. } => {
                self.update_channel(
                    channel_name.as_str(),
                    Channel {
                        channel_id: remote_channel.clone(),
                        thread_id: remote_thread.clone(),
                    },
                );
            },
            PrimaryCall::Update { .. } => {},
        }

        let text = match Self::render_part(&notification, "secondary") {
            Ok(t) => t,
            Err(e) => {
                return Err(e);
            },
        };
        let icon_ref = match &icon {
            Some(s) => Some(s.as_str()),
            None => None,
        };
        match transport.reply_in_thread(
            token.as_str(),
            icon_ref,
            remote_channel.as_str(),
            remote_thread.as_str(),
            text.as_str(),
        ) {
            Ok(_) => Ok(()),
            Err(e) => Err(CallError::Fail(e)),
        }
    }
}

/// Thread-state idempotence: after a delivery to a logical channel succeeds,
/// the instance has remote identifiers cached for that channel, a second
/// delivery to the same channel plans its primary call as an update of
/// exactly those identifiers, and the second delivery leaves the cached
/// record in place whatever its own outcome.
pub proof fn lemma_thread_state_reuse(
    pre: Slack,
    mid: Slack,
    post: Slack,
    config1: Map<Seq<char>, String>,
    config2: Map<Seq<char>, String>,
    n1: Notification,
    n2: Notification,
    r2: Result<(), CallError>,
    ch: Seq<char>,
)
    requires
        notify_transition(pre, mid, config1, n1, Ok(())),
        notify_transition(mid, post, config2, n2, r2),
        config1.contains_key("channel"@) && config1["channel"@]@ == ch,
        config2.contains_key("channel"@) && config2["channel"@]@ == ch,
    ensures
        mid.channels@.contains_key(ch),
        primary_update_target(mid, ch) == Some(
            (mid.channels@[ch].channel_id@, mid.channels@[ch].thread_id@),
        ),
        post.channels@ == mid.channels@,
        primary_update_target(post, ch) == primary_update_target(mid, ch),
{
}

} // verus!
