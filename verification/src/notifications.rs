//! Notifications: the events that ask the engine for a refresh, and the
//! configuration of where they come from.
use vstd::prelude::*;

verus! {

/// Seconds between two polls of the notification service.
pub const POLL_INTERVAL_SECONDS: u64 = 15;

/// What a notification tells the client.
#[derive(Debug)]
pub enum NotificationEvent {
    NewMessage(String),
    MessageUpdated(String),
    LabelUpdated(String),
    /// A refresh is requested.
    SyncRequired,
}

pub enum NotificationEventView {
    NewMessage(Seq<char>),
    MessageUpdated(Seq<char>),
    LabelUpdated(Seq<char>),
    SyncRequired,
}

impl DeepView for NotificationEvent {
    type V = NotificationEventView;

    open spec fn deep_view(&self) -> NotificationEventView {
        match self {
            NotificationEvent::NewMessage(id) => NotificationEventView::NewMessage(id@),
            NotificationEvent::MessageUpdated(id) => NotificationEventView::MessageUpdated(id@),
            NotificationEvent::LabelUpdated(id) => NotificationEventView::LabelUpdated(id@),
            NotificationEvent::SyncRequired => NotificationEventView::SyncRequired,
        }
    }
}

impl Clone for NotificationEvent {
    fn clone(&self) -> (r: Self)
        ensures
            r.deep_view() == self.deep_view(),
    {
        match self {
            NotificationEvent::NewMessage(id) => NotificationEvent::NewMessage(id.clone()),
            NotificationEvent::MessageUpdated(id) => NotificationEvent::MessageUpdated(id.clone()),
            NotificationEvent::LabelUpdated(id) => NotificationEvent::LabelUpdated(id.clone()),
            NotificationEvent::SyncRequired => NotificationEvent::SyncRequired,
        }
    }
}

/// Whether a notification asks for a refresh of the label on display.
pub fn asks_for_refresh(event: &NotificationEvent) -> (r: bool)
    ensures
        r == (event.deep_view() == NotificationEventView::SyncRequired),
{
    match event {
        NotificationEvent::SyncRequired => true,
        _ => false,
    }
}

/// Where push notifications of the remote service are delivered.
pub struct GmailPushNotifications {
    project_id: String,
    topic_name: String,
    subscription_name: String,
}

impl GmailPushNotifications {
    /// The project that owns the topic.
    pub closed spec fn spec_project_id(&self) -> Seq<char> {
        self.project_id@
    }

    /// The topic that the remote service publishes to.
    pub closed spec fn spec_topic_name(&self) -> Seq<char> {
        self.topic_name@
    }

    /// The subscription that the client reads from.
    pub closed spec fn spec_subscription_name(&self) -> Seq<char> {
        self.subscription_name@
    }

    /// Names project, topic and subscription.
    pub fn new(project_id: String, topic_name: String, subscription_name: String) -> (push: Self)
        ensures
            push.spec_project_id() == project_id@,
            push.spec_topic_name() == topic_name@,
            push.spec_subscription_name() == subscription_name@,
    {
        GmailPushNotifications { project_id, topic_name, subscription_name }
    }

    /// The project that owns the topic.
    pub fn project_id(&self) -> (id: &String)
        ensures
            id@ == self.spec_project_id(),
    {
        &self.project_id
    }

    /// The topic that the remote service publishes to.
    pub fn topic_name(&self) -> (name: &String)
        ensures
            name@ == self.spec_topic_name(),
    {
        &self.topic_name
    }

    /// The subscription that the client reads from.
    pub fn subscription_name(&self) -> (name: &String)
        ensures
            name@ == self.spec_subscription_name(),
    {
        &self.subscription_name
    }
}

/// Sync by the change history of the remote service: the token of the last
/// change that was seen.
pub struct GmailHistorySync {
    last_history_id: Option<String>,
}

impl GmailHistorySync {
    /// The token of the last change that was seen.
    pub closed spec fn spec_last_history_id(&self) -> Option<Seq<char>> {
        self.last_history_id.deep_view()
    }

    /// Starts with no change seen.
    pub fn new() -> (sync: Self)
        ensures
            sync.spec_last_history_id() is None,
    {
        GmailHistorySync { last_history_id: None }
    }

    /// The token of the last change that was seen.
    pub fn last_history_id(&self) -> (id: &Option<String>)
        ensures
            id.deep_view() == self.spec_last_history_id(),
    {
        &self.last_history_id
    }

    /// Takes note of the token that the remote service reported, and asks
    /// for a refresh.
    pub fn sync_history(&mut self, history_id: String) -> (events: Vec<NotificationEvent>)
        ensures
            final(self).spec_last_history_id() == Some(history_id@),
            events.deep_view() == seq![NotificationEventView::SyncRequired],
    {
        self.last_history_id = Some(history_id);
        let mut events: Vec<NotificationEvent> = Vec::new();
        events.push(NotificationEvent::SyncRequired);
        assert(events.deep_view() =~= seq![NotificationEventView::SyncRequired]);
        events
    }
}

/// Where notifications come from.
pub struct NotificationConfig {
    pub enable_push_notifications: bool,
    pub enable_history_sync: bool,
    pub poll_interval_seconds: u64,
    pub google_cloud_project_id: Option<String>,
    pub pubsub_topic_name: Option<String>,
    pub pubsub_subscription_name: Option<String>,
}

pub struct NotificationConfigView {
    pub enable_push_notifications: bool,
    pub enable_history_sync: bool,
    pub poll_interval_seconds: u64,
    pub google_cloud_project_id: Option<Seq<char>>,
    pub pubsub_topic_name: Option<Seq<char>>,
    pub pubsub_subscription_name: Option<Seq<char>>,
}

impl DeepView for NotificationConfig {
    type V = NotificationConfigView;

    open spec fn deep_view(&self) -> NotificationConfigView {
        NotificationConfigView {
            enable_push_notifications: self.enable_push_notifications,
            enable_history_sync: self.enable_history_sync,
            poll_interval_seconds: self.poll_interval_seconds,
            google_cloud_project_id: self.google_cloud_project_id.deep_view(),
            pubsub_topic_name: self.pubsub_topic_name.deep_view(),
            pubsub_subscription_name: self.pubsub_subscription_name.deep_view(),
        }
    }
}

impl Default for NotificationConfig {
    /// Polling alone: push notifications are off until they are set up.
    fn default() -> (config: Self)
        ensures
            config.deep_view() == (NotificationConfigView {
                enable_push_notifications: false,
                enable_history_sync: true,
                poll_interval_seconds: POLL_INTERVAL_SECONDS,
                google_cloud_project_id: None,
                pubsub_topic_name: Some("gmail-notifications"@),
                pubsub_subscription_name: Some("rmail-subscription"@),
            }),
    {
        NotificationConfig {
            enable_push_notifications: false,
            enable_history_sync: true,
            poll_interval_seconds: POLL_INTERVAL_SECONDS,
            google_cloud_project_id: None,
            pubsub_topic_name: Some("gmail-notifications".to_string()),
            pubsub_subscription_name: Some("rmail-subscription".to_string()),
        }
    }
}

/// What a configuration asks to set up before polling starts.
pub enum PushSetup {
    /// Polling alone.
    Off,
    /// Push notifications, delivered as named.
    On(GmailPushNotifications),
}

/// The text that reports a configuration that turns push notifications on
/// without naming where they are delivered.
pub open spec fn missing_push_configuration() -> Seq<char> {
    "Missing Google Cloud configuration for push notifications"@
}

/// Decides what to set up for a configuration. Push notifications need
/// project, topic and subscription; a configuration that turns them on and
/// lacks one of the three is refused.
pub fn setup_real_time_notifications(config: NotificationConfig) -> (setup: Result<PushSetup, String>)
    ensures
        match setup {
            Ok(PushSetup::Off) => !config.enable_push_notifications,
            Ok(PushSetup::On(push)) => {
                &&& config.enable_push_notifications
                &&& config.google_cloud_project_id.deep_view() == Some(push.spec_project_id())
                &&& config.pubsub_topic_name.deep_view() == Some(push.spec_topic_name())
                &&& config.pubsub_subscription_name.deep_view() == Some(
                    push.spec_subscription_name(),
                )
            },
            Err(text) => {
                &&& config.enable_push_notifications
                &&& (config.google_cloud_project_id is None || config.pubsub_topic_name is None
                    || config.pubsub_subscription_name is None)
                &&& text@ == missing_push_configuration()
            },
        },
{
    if config.enable_push_notifications {
        match (
            config.google_cloud_project_id,
            config.pubsub_topic_name,
            config.pubsub_subscription_name,
        ) {
            (Some(project), Some(topic), Some(subscription)) => Ok(
                PushSetup::On(GmailPushNotifications::new(project, topic, subscription)),
            ),
            _ => Err("Missing Google Cloud configuration for push notifications".to_string()),
        }
    } else {
        Ok(PushSetup::Off)
    }
}

} // verus!
