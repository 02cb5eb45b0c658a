use crate::error::{QueueError, QueueErrorView};
use vstd::prelude::*;

verus! {

/// The access key that every client is given: the service this library talks
/// to does not check credentials.
pub const PLACEHOLDER_ACCESS_KEY_ID: &'static str = "test";

/// The secret key that goes with [`PLACEHOLDER_ACCESS_KEY_ID`].
pub const PLACEHOLDER_SECRET_ACCESS_KEY: &'static str = "test";

/// The name under which the placeholder credentials are registered.
pub const CREDENTIALS_PROVIDER_NAME: &'static str = "static";

/// What `configure` answers once the new client is in place.
pub const CONFIGURED_MESSAGE: &'static str = "SQS configured successfully";

/// Everything a client is built from.
#[derive(Debug, Clone, PartialEq, Eq)]
pub struct ConnectionSettings {
    /// The URL of the service.
    pub endpoint: String,
    /// The region the service is addressed in.
    pub region: String,
    pub access_key_id: String,
    pub secret_access_key: String,
    pub credentials_provider: &'static str,
}

/// [`ConnectionSettings`] with its texts as sequences of characters.
pub struct ConnectionSettingsView {
    pub endpoint: Seq<char>,
    pub region: Seq<char>,
    pub access_key_id: Seq<char>,
    pub secret_access_key: Seq<char>,
    pub credentials_provider: Seq<char>,
}

impl View for ConnectionSettings {
    type V = ConnectionSettingsView;

    open spec fn view(&self) -> ConnectionSettingsView {
        ConnectionSettingsView {
            endpoint: self.endpoint@,
            region: self.region@,
            access_key_id: self.access_key_id@,
            secret_access_key: self.secret_access_key@,
            credentials_provider: self.credentials_provider@,
        }
    }
}

/// The settings for a client at `endpoint` in `region`: the two as given, and
/// the placeholder credentials.
pub open spec fn connection_settings_of(
    endpoint: Seq<char>,
    region: Seq<char>,
) -> ConnectionSettingsView {
    ConnectionSettingsView {
        endpoint,
        region,
        access_key_id: PLACEHOLDER_ACCESS_KEY_ID@,
        secret_access_key: PLACEHOLDER_SECRET_ACCESS_KEY@,
        credentials_provider: CREDENTIALS_PROVIDER_NAME@,
    }
}

/// Says what a client for `endpoint` and `region` is to be built from. Any
/// endpoint and region are accepted: whether the service can be reached shows
/// only when a command is sent.
pub fn connection_settings(endpoint: String, region: String) -> (settings: ConnectionSettings)
    ensures
        settings@ == connection_settings_of(endpoint@, region@),
{
    ConnectionSettings {
        endpoint,
        region,
        access_key_id: PLACEHOLDER_ACCESS_KEY_ID.to_owned(),
        secret_access_key: PLACEHOLDER_SECRET_ACCESS_KEY.to_owned(),
        credentials_provider: CREDENTIALS_PROVIDER_NAME,
    }
}

/// The one client that all commands share, with the endpoint and region it was
/// built for. The three are there together or not at all.
#[derive(Debug)]
pub enum Session<C> {
    /// No client has been configured yet.
    Unconfigured,
    /// `client` talks to `endpoint` in `region`.
    Configured { client: C, endpoint: String, region: String },
}

/// A [`Session`] with its texts as sequences of characters.
pub enum SessionView<C> {
    Unconfigured,
    Configured { client: C, endpoint: Seq<char>, region: Seq<char> },
}

impl<C> View for Session<C> {
    type V = SessionView<C>;

    open spec fn view(&self) -> SessionView<C> {
        match self {
            Session::Unconfigured => SessionView::Unconfigured,
            Session::Configured { client, endpoint, region } => SessionView::Configured {
                client: *client,
                endpoint: endpoint@,
                region: region@,
            },
        }
    }
}

impl<C> SessionView<C> {
    /// The client in use, if there is one.
    pub open spec fn client(self) -> Option<C> {
        match self {
            SessionView::Unconfigured => None,
            SessionView::Configured { client, .. } => Some(client),
        }
    }

    /// The endpoint in use, if there is one.
    pub open spec fn endpoint(self) -> Option<Seq<char>> {
        match self {
            SessionView::Unconfigured => None,
            SessionView::Configured { endpoint, .. } => Some(endpoint),
        }
    }

    /// The region in use, if there is one.
    pub open spec fn region(self) -> Option<Seq<char>> {
        match self {
            SessionView::Unconfigured => None,
            SessionView::Configured { region, .. } => Some(region),
        }
    }

    /// The session that holds `client`, built from `settings`.
    pub open spec fn configured(client: C, settings: ConnectionSettingsView) -> SessionView<C> {
        SessionView::Configured { client, endpoint: settings.endpoint, region: settings.region }
    }
}

impl<C: Clone> SessionView<C> {
    /// Whether `client` is what this session gives a command to work with: a
    /// clone of the configured client.
    pub open spec fn hands_out(self, client: C) -> bool {
        self matches SessionView::Configured { client: own, .. } && cloned(own, client)
    }

    /// Whether `error` is what this session turns a command away with: it has
    /// no client, and says so.
    pub open spec fn turns_away(self, error: QueueError) -> bool {
        self is Unconfigured && error@ == QueueErrorView::NotConfigured
    }
}

impl<C> Session<C> {
    /// A session without a client, as it is when the program starts.
    pub fn new() -> (session: Session<C>)
        ensures
            session@ == SessionView::<C>::Unconfigured,
    {
        Session::Unconfigured
    }

    /// Whether a client has been configured.
    pub fn is_configured(&self) -> (yes: bool)
        ensures
            yes == (self@ is Configured),
    {
        match self {
            Session::Unconfigured => false,
            Session::Configured { .. } => true,
        }
    }

    /// The endpoint that the current client was built for.
    pub fn endpoint(&self) -> (endpoint: Option<&String>)
        ensures
            endpoint.deep_view() == self@.endpoint(),
    {
        match self {
            Session::Unconfigured => None,
            Session::Configured { endpoint, .. } => Some(endpoint),
        }
    }

    /// The region that the current client was built for.
    pub fn region(&self) -> (region: Option<&String>)
        ensures
            region.deep_view() == self@.region(),
    {
        match self {
            Session::Unconfigured => None,
            Session::Configured { region, .. } => Some(region),
        }
    }

    /// Puts `client`, built from `settings`, in place of whatever the session
    /// held, together with the endpoint and region of `settings`, and returns
    /// the confirmation for the user. This never fails.
    pub fn configure(&mut self, client: C, settings: ConnectionSettings) -> (confirmation: String)
        ensures
            final(self)@ == SessionView::configured(client, settings@),
            confirmation@ == CONFIGURED_MESSAGE@,
    {
        *self = Session::Configured {
            client,
            endpoint: settings.endpoint,
            region: settings.region,
        };
        CONFIGURED_MESSAGE.to_owned()
    }
}

impl<C: Clone> Session<C> {
    /// Hands out the current client for one command to use, or says that there
    /// is none. The handle is the caller's own: configuring the session anew
    /// does not take it away.
    pub fn get_client(&self) -> (outcome: Result<C, QueueError>)
        ensures
            match outcome {
                Ok(client) => self@.hands_out(client),
                Err(error) => self@.turns_away(error),
            },
    {
        match self {
            Session::Unconfigured => Err(QueueError::NotConfigured),
            Session::Configured { client, .. } => Ok(client.clone()),
        }
    }
}

impl<C> Default for Session<C> {
    fn default() -> (session: Session<C>)
        ensures
            session@ == SessionView::<C>::Unconfigured,
    {
        Session::Unconfigured
    }
}

/// In every state the client, the endpoint and the region are there together
/// or not at all: no session is half configured.
pub proof fn lemma_session_is_whole<C>(session: SessionView<C>)
    ensures
        session.client() is Some <==> session.endpoint() is Some,
        session.endpoint() is Some <==> session.region() is Some,
        session is Configured <==> session.client() is Some,
{
}

/// Before a client is configured a session hands out nothing: whatever a
/// command asks for, the one answer it can get is `NotConfigured`.
pub proof fn lemma_unconfigured_session_serves_nobody<C: Clone>(
    session: SessionView<C>,
    client: C,
    error: QueueError,
)
    requires
        session is Unconfigured,
    ensures
        !session.hands_out(client),
        session.turns_away(error) <==> error@ == QueueErrorView::NotConfigured,
{
}

/// A session configured for `endpoint` and `region` keeps exactly that pair,
/// turns no command away, and hands each command a clone of the client that
/// was configured with the pair, and nothing else.
pub proof fn lemma_configured_session_serves_its_client<C: Clone>(
    client: C,
    endpoint: Seq<char>,
    region: Seq<char>,
    handed: C,
    error: QueueError,
)
    ensures
        ({
            let session = SessionView::configured(
                client,
                connection_settings_of(endpoint, region),
            );
            &&& session.client() == Some(client)
            &&& session.endpoint() == Some(endpoint)
            &&& session.region() == Some(region)
            &&& !session.turns_away(error)
            &&& session.hands_out(handed) <==> cloned(client, handed)
        }),
{
}

} // verus!
