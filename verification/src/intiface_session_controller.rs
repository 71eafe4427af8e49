//! The connection to Intiface Central as the settings screen sees it: which URL is
//! committed, which connect and discovery requests are outstanding, what their
//! answers were, and what to tell the user.
//!
//! The controller decides; the caller runs the returned commands (connecting,
//! scanning, disconnecting) and hands each answer back to
//! [`IntifaceSessionController::handle_async_result`].

use vstd::prelude::*;

use crate::config::Config;
use crate::intiface::DiscoveredToy;
use crate::text::{decimal, opt_str_view, opt_string_view, push_decimal, trimmed, trimming_is_idempotent};

verus! {

// ----------------------------------------------------------------------------
// URLs

/// The scheme that `url::Url::parse` finds in `input`, lower-cased; `None` when
/// `input` is not an absolute URL.
pub uninterp spec fn url_parse_scheme(input: Seq<char>) -> Option<Seq<char>>;

/// Calls `url::Url::parse` and, on success, `Url::scheme`. Claims only that the
/// result is the scheme of the parsed URL (or `None` when parsing fails), which
/// depends on the input alone; what the URL grammar accepts is left unsaid.
#[verifier::external_body]
fn parsed_url_scheme(input: &str) -> (r: Option<String>)
    ensures
        opt_string_view(r) == url_parse_scheme(input@),
{
    match url::Url::parse(input) {
        Ok(parsed) => Some(parsed.scheme().to_string()),
        Err(_) => None,
    }
}

/// The scheme is one of the WebSocket schemes `ws` and `wss`.
pub open spec fn spec_is_websocket_scheme(scheme: Option<Seq<char>>) -> bool {
    scheme == Some("ws"@) || scheme == Some("wss"@)
}

/// Whether a parsed scheme is a WebSocket scheme.
pub fn is_websocket_scheme(scheme: Option<String>) -> (r: bool)
    ensures
        r == spec_is_websocket_scheme(opt_string_view(scheme)),
{
    match scheme {
        Some(scheme) => {
            let ws = String::from_str("ws");
            let wss = String::from_str("wss");
            scheme == ws || scheme == wss
        },
        None => false,
    }
}

/// A usable Intiface URL: after trimming it is not empty and parses as a `ws://`
/// or `wss://` URL.
pub open spec fn spec_is_valid_url(value: Seq<char>) -> bool {
    trimmed(value).len() > 0 && spec_is_websocket_scheme(url_parse_scheme(trimmed(value)))
}

pub fn is_valid_url(value: &str) -> (r: bool)
    ensures
        r == spec_is_valid_url(value@),
{
    let trimmed_value = value.trim();
    if trimmed_value.is_empty() {
        return false;
    }
    is_websocket_scheme(parsed_url_scheme(trimmed_value))
}

/// Trims the configured Intiface URL in place.
pub fn normalize_url_field(config: &mut Config)
    ensures
        final(config).intiface_websocket_url@ == trimmed(old(config).intiface_websocket_url@),
        final(config).setup_dismissed == old(config).setup_dismissed,
        final(config).selected_toy_identifiers == old(config).selected_toy_identifiers,
        final(config).rewards == old(config).rewards,
        final(config).vibrations == old(config).vibrations,
{
    let trimmed_url = config.intiface_websocket_url.as_str().trim().to_owned();
    config.intiface_websocket_url = trimmed_url;
}

/// The configured Intiface URL, trimmed.
pub fn normalized_url(config: &Config) -> (r: String)
    ensures
        r@ == trimmed(config.intiface_websocket_url@),
{
    config.intiface_websocket_url.as_str().trim().to_owned()
}

// ----------------------------------------------------------------------------
// Requests and answers

/// The answer to a connect or discovery request, tagged with the request's id.
#[derive(Debug)]
pub enum SessionAsyncResult {
    Connect { request_id: u64, result: Result<(), String> },
    Discovery { request_id: u64, result: Result<Vec<DiscoveredToy>, String> },
}

pub enum SessionAsyncResultView {
    Connect { request_id: u64, result: Result<(), Seq<char>> },
    Discovery { request_id: u64, result: Result<Seq<(u32, Seq<char>)>, Seq<char>> },
}

/// The values of a list of toys.
pub open spec fn toys_view(toys: Seq<DiscoveredToy>) -> Seq<(u32, Seq<char>)> {
    toys.map_values(|t: DiscoveredToy| t@)
}

impl View for SessionAsyncResult {
    type V = SessionAsyncResultView;

    open spec fn view(&self) -> SessionAsyncResultView {
        match self {
            SessionAsyncResult::Connect { request_id, result } => SessionAsyncResultView::Connect {
                request_id: *request_id,
                result: match result {
                    Ok(()) => Ok(()),
                    Err(e) => Err(e@),
                },
            },
            SessionAsyncResult::Discovery { request_id, result } => SessionAsyncResultView::Discovery {
                request_id: *request_id,
                result: match result {
                    Ok(toys) => Ok(toys_view(toys@)),
                    Err(e) => Err(e@),
                },
            },
        }
    }
}

/// Work the controller asks its caller to start.
#[derive(Debug, Clone, PartialEq, Eq)]
pub enum SessionCommand {
    /// Connect to Intiface at `url`, answering with `SessionAsyncResult::Connect`.
    Connect { request_id: u64, url: String },
    /// Scan for toys, answering with `SessionAsyncResult::Discovery`.
    Discover { request_id: u64 },
    /// Drop the current connection; no answer is expected.
    Disconnect,
}

pub enum SessionCommandView {
    Connect { request_id: u64, url: Seq<char> },
    Discover { request_id: u64 },
    Disconnect,
}

impl View for SessionCommand {
    type V = SessionCommandView;

    open spec fn view(&self) -> SessionCommandView {
        match self {
            SessionCommand::Connect { request_id, url } => SessionCommandView::Connect {
                request_id: *request_id,
                url: url@,
            },
            SessionCommand::Discover { request_id } => SessionCommandView::Discover {
                request_id: *request_id,
            },
            SessionCommand::Disconnect => SessionCommandView::Disconnect,
        }
    }
}

/// The values of a list of commands.
pub open spec fn commands_view(commands: Seq<SessionCommand>) -> Seq<SessionCommandView> {
    commands.map_values(|c: SessionCommand| c@)
}


// ----------------------------------------------------------------------------
// The controller

pub const INVALID_URL_MESSAGE: &'static str = "Intiface URL must be a ws:// or wss:// address";
pub const SCAN_NEEDS_URL_MESSAGE: &'static str = "Enter a valid ws:// or wss:// URL before scanning";
pub const SCANNING_MESSAGE: &'static str = "Scanning for toys...";
pub const NO_TOYS_MESSAGE: &'static str = "No toys were discovered. Make sure your toy is on and in range.";

/// State of the Intiface connection and toy discovery behind the settings screen.
#[derive(Debug)]
pub struct IntifaceSessionController {
    discovered_toys: Vec<DiscoveredToy>,
    committed_url: Option<String>,
    next_async_request_id: u64,
    latest_connect_request_id: Option<u64>,
    latest_discovery_request_id: Option<u64>,
    connect_in_progress: bool,
    discovery_in_progress: bool,
    connect_status_error: Option<String>,
    toy_status: Option<String>,
}

pub struct SessionView {
    pub discovered_toys: Seq<(u32, Seq<char>)>,
    pub committed_url: Option<Seq<char>>,
    /// The id of the last request issued (0 before the first).
    pub next_async_request_id: u64,
    pub latest_connect_request_id: Option<u64>,
    pub latest_discovery_request_id: Option<u64>,
    pub connect_in_progress: bool,
    pub discovery_in_progress: bool,
    pub connect_status_error: Option<Seq<char>>,
    pub toy_status: Option<Seq<char>>,
}

impl View for IntifaceSessionController {
    type V = SessionView;

    closed spec fn view(&self) -> SessionView {
        SessionView {
            discovered_toys: toys_view(self.discovered_toys@),
            committed_url: opt_string_view(self.committed_url),
            next_async_request_id: self.next_async_request_id,
            latest_connect_request_id: self.latest_connect_request_id,
            latest_discovery_request_id: self.latest_discovery_request_id,
            connect_in_progress: self.connect_in_progress,
            discovery_in_progress: self.discovery_in_progress,
            connect_status_error: opt_string_view(self.connect_status_error),
            toy_status: opt_string_view(self.toy_status),
        }
    }
}

impl SessionView {
    /// No request was issued with an id above the last one issued.
    pub open spec fn ids_issued_in_order(self) -> bool {
        &&& self.latest_connect_request_id matches Some(id) ==> 1 <= id <= self.next_async_request_id
        &&& self.latest_discovery_request_id matches Some(id) ==> 1 <= id
            <= self.next_async_request_id
    }

    /// A connection is up or on its way: a connect is in progress, or the last one
    /// reported no error.
    pub open spec fn connected_optimistically(self) -> bool {
        self.connect_in_progress || (self.latest_connect_request_id is Some
            && self.connect_status_error is None)
    }

    /// Issues a connect request to `url`.
    pub open spec fn start_connect(self, url: Seq<char>) -> (SessionView, SessionCommandView) {
        let id = (self.next_async_request_id + 1) as u64;
        (
            SessionView {
                next_async_request_id: id,
                latest_connect_request_id: Some(id),
                connect_in_progress: true,
                connect_status_error: None,
                ..self
            },
            SessionCommandView::Connect { request_id: id, url },
        )
    }

    /// Issues a discovery request.
    pub open spec fn start_discovery(self) -> (SessionView, SessionCommandView) {
        let id = (self.next_async_request_id + 1) as u64;
        (
            SessionView {
                next_async_request_id: id,
                latest_discovery_request_id: Some(id),
                discovery_in_progress: true,
                toy_status: Some(SCANNING_MESSAGE@),
                ..self
            },
            SessionCommandView::Discover { request_id: id },
        )
    }

    /// At startup: connect when the configured URL is usable.
    pub open spec fn sync_startup(self, url: Seq<char>) -> (SessionView, Seq<SessionCommandView>) {
        if spec_is_valid_url(url) {
            let (next, command) = self.start_connect(trimmed(url));
            (next, seq![command])
        } else {
            (self, Seq::empty())
        }
    }

    /// After the user committed the URL `url` (before trimming): nothing when the
    /// trimmed URL is the committed one; otherwise commit it, forget the toys and
    /// messages, and connect to it, or disconnect and complain when it is unusable.
    pub open spec fn refresh_after_url_commit(self, url: Seq<char>) -> (
        SessionView,
        Seq<SessionCommandView>,
    ) {
        let current = trimmed(url);
        if self.committed_url == Some(current) {
            (self, Seq::empty())
        } else {
            let fresh = SessionView {
                committed_url: Some(current),
                discovered_toys: Seq::empty(),
                toy_status: None,
                connect_status_error: None,
                ..self
            };
            if spec_is_valid_url(current) {
                let (next, command) = fresh.start_connect(trimmed(current));
                (next, seq![command])
            } else {
                (
                    SessionView { connect_status_error: Some(INVALID_URL_MESSAGE@), ..fresh },
                    seq![SessionCommandView::Disconnect],
                )
            }
        }
    }

    /// The user asked for a rescan: complain when the URL is unusable; otherwise
    /// scan, and connect too unless a connection is up or on its way.
    pub open spec fn refresh_manually(self, url: Seq<char>) -> (SessionView, Seq<SessionCommandView>) {
        if !spec_is_valid_url(url) {
            (SessionView { connect_status_error: Some(SCAN_NEEDS_URL_MESSAGE@), ..self }, Seq::empty())
        } else {
            let (scanning, discover) = self.start_discovery();
            if scanning.connected_optimistically() {
                (scanning, seq![discover])
            } else {
                let (next, connect) = scanning.start_connect(trimmed(url));
                (next, seq![discover, connect])
            }
        }
    }

    /// The message shown after a discovery that found `count` toys.
    pub open spec fn discovery_message(count: nat) -> Seq<char> {
        if count == 0 {
            NO_TOYS_MESSAGE@
        } else {
            "Discovered "@ + decimal(count) + " toy(s)."@
        }
    }

    /// Takes in an answer: answers to any but the latest request of their kind are
    /// ignored; the latest ends its request and records its outcome.
    pub open spec fn handle_async_result(self, result: SessionAsyncResultView) -> SessionView {
        match result {
            SessionAsyncResultView::Connect { request_id, result } => {
                if self.latest_connect_request_id != Some(request_id) {
                    self
                } else {
                    SessionView {
                        connect_in_progress: false,
                        connect_status_error: match result {
                            Ok(()) => None,
                            Err(e) => Some(e),
                        },
                        ..self
                    }
                }
            },
            SessionAsyncResultView::Discovery { request_id, result } => {
                if self.latest_discovery_request_id != Some(request_id) {
                    self
                } else {
                    match result {
                        Ok(toys) => SessionView {
                            discovery_in_progress: false,
                            toy_status: Some(SessionView::discovery_message(toys.len())),
                            discovered_toys: toys,
                            ..self
                        },
                        Err(e) => SessionView {
                            discovery_in_progress: false,
                            toy_status: Some(e),
                            discovered_toys: Seq::empty(),
                            ..self
                        },
                    }
                }
            },
        }
    }

    /// The status line, given whether the client is connected and how many seconds
    /// ago its last event was.
    pub open spec fn connection_status_label(
        self,
        connected: bool,
        last_event_secs: Option<u64>,
    ) -> Seq<char> {
        if self.connect_in_progress {
            "Intiface: connecting..."@
        } else if self.connect_status_error is Some {
            "Intiface: "@ + self.connect_status_error->0
        } else if connected {
            match last_event_secs {
                Some(secs) => "Intiface: connected, last event "@ + decimal(secs as nat) + "s ago"@,
                None => "Intiface: connected."@,
            }
        } else {
            "Intiface: not connected."@
        }
    }
}


impl IntifaceSessionController {
    #[verifier::type_invariant]
    closed spec fn request_ids_in_order(self) -> bool {
        self@.ids_issued_in_order()
    }

    /// A controller for the settings `config`, with its trimmed URL committed and
    /// nothing requested yet.
    pub fn new(config: &Config) -> (r: Self)
        ensures
            r@.ids_issued_in_order(),
            r@ == (SessionView {
                discovered_toys: Seq::empty(),
                committed_url: Some(trimmed(config.intiface_websocket_url@)),
                next_async_request_id: 0,
                latest_connect_request_id: None,
                latest_discovery_request_id: None,
                connect_in_progress: false,
                discovery_in_progress: false,
                connect_status_error: None,
                toy_status: None,
            }),
    {
        let r = IntifaceSessionController {
            discovered_toys: Vec::new(),
            committed_url: Some(normalized_url(config)),
            next_async_request_id: 0,
            latest_connect_request_id: None,
            latest_discovery_request_id: None,
            connect_in_progress: false,
            discovery_in_progress: false,
            connect_status_error: None,
            toy_status: None,
        };
        proof {
            assert(toys_view(r.discovered_toys@) =~= Seq::empty());
        }
        r
    }

    /// The id of the last request issued, 0 before the first.
    pub fn last_request_id(&self) -> (r: u64)
        ensures
            r == self@.next_async_request_id,
            self@.ids_issued_in_order(),
    {
        proof {
            use_type_invariant(self);
        }
        self.next_async_request_id
    }

    fn next_request_id(&mut self) -> (r: u64)
        requires
            old(self)@.next_async_request_id < u64::MAX,
        ensures
            r == old(self)@.next_async_request_id + 1,
            final(self)@ == (SessionView { next_async_request_id: r, ..old(self)@ }),
    {
        proof {
            use_type_invariant(&*self);
        }
        self.next_async_request_id = self.next_async_request_id + 1;
        self.next_async_request_id
    }

    fn is_connected_optimistically(&self) -> (r: bool)
        ensures
            r == self@.connected_optimistically(),
    {
        self.connect_in_progress || (self.latest_connect_request_id.is_some()
            && self.connect_status_error.is_none())
    }

    fn start_connect(&mut self, config: &Config) -> (command: SessionCommand)
        requires
            old(self)@.next_async_request_id < u64::MAX,
        ensures
            (final(self)@, command@) == old(self)@.start_connect(trimmed(config.intiface_websocket_url@)),
    {
        let request_id = self.next_request_id();
        proof {
            use_type_invariant(&*self);
        }
        self.latest_connect_request_id = Some(request_id);
        self.connect_in_progress = true;
        self.connect_status_error = None;
        let url = config.intiface_websocket_url.as_str().trim().to_owned();
        SessionCommand::Connect { request_id, url }
    }

    fn start_discovery(&mut self) -> (command: SessionCommand)
        requires
            old(self)@.next_async_request_id < u64::MAX,
        ensures
            (final(self)@, command@) == old(self)@.start_discovery(),
    {
        let request_id = self.next_request_id();
        proof {
            use_type_invariant(&*self);
        }
        self.latest_discovery_request_id = Some(request_id);
        self.discovery_in_progress = true;
        self.toy_status = Some(String::from_str(SCANNING_MESSAGE));
        SessionCommand::Discover { request_id }
    }

    /// At startup, connects when the configured URL is usable.
    pub fn sync_startup(&mut self, config: &Config) -> (commands: Vec<SessionCommand>)
        requires
            old(self)@.next_async_request_id < u64::MAX,
        ensures
            old(self)@.ids_issued_in_order(),
            final(self)@.ids_issued_in_order(),
            final(self)@ == old(self)@.sync_startup(config.intiface_websocket_url@).0,
            commands_view(commands@) == old(self)@.sync_startup(config.intiface_websocket_url@).1,
    {
        proof {
            use_type_invariant(&*self);
        }
        let mut commands: Vec<SessionCommand> = Vec::new();
        if !is_valid_url(config.intiface_websocket_url.as_str()) {
            proof {
                assert(commands_view(commands@) =~= Seq::empty());
            }
            return commands;
        }
        let command = self.start_connect(config);
        commands.push(command);
        proof {
            assert(commands_view(commands@) =~= seq![command@]);
        }
        commands
    }

    /// After the user committed an edit of the URL: trims it in `config`, and when
    /// it differs from the committed one, commits it, forgets the toys and
    /// messages, and connects to it (or disconnects and complains when unusable).
    pub fn refresh_after_url_commit(&mut self, config: &mut Config) -> (commands: Vec<
        SessionCommand,
    >)
        requires
            old(self)@.next_async_request_id < u64::MAX,
        ensures
            old(self)@.ids_issued_in_order(),
            final(self)@.ids_issued_in_order(),
            final(self)@ == old(self)@.refresh_after_url_commit(
                old(config).intiface_websocket_url@,
            ).0,
            commands_view(commands@) == old(self)@.refresh_after_url_commit(
                old(config).intiface_websocket_url@,
            ).1,
            final(config).intiface_websocket_url@ == trimmed(old(config).intiface_websocket_url@),
            final(config).setup_dismissed == old(config).setup_dismissed,
            final(config).selected_toy_identifiers == old(config).selected_toy_identifiers,
            final(config).rewards == old(config).rewards,
            final(config).vibrations == old(config).vibrations,
    {
        proof {
            use_type_invariant(&*self);
        }
        let ghost entered = config.intiface_websocket_url@;
        normalize_url_field(config);
        let current_url = normalized_url(config);
        proof {
            trimming_is_idempotent(entered);
        }
        let unchanged = match &self.committed_url {
            Some(committed) => *committed == current_url,
            None => false,
        };
        let mut commands: Vec<SessionCommand> = Vec::new();
        if unchanged {
            proof {
                assert(commands_view(commands@) =~= Seq::empty());
            }
            return commands;
        }
        self.committed_url = Some(current_url);
        self.discovered_toys = Vec::new();
        self.toy_status = None;
        self.connect_status_error = None;
        if !is_valid_url(config.intiface_websocket_url.as_str()) {
            self.connect_status_error = Some(String::from_str(INVALID_URL_MESSAGE));
            commands.push(SessionCommand::Disconnect);
            proof {
                assert(toys_view(self.discovered_toys@) =~= Seq::empty());
                assert(commands_view(commands@) =~= seq![SessionCommandView::Disconnect]);
            }
            return commands;
        }
        proof {
            assert(toys_view(self.discovered_toys@) =~= Seq::empty());
        }
        let command = self.start_connect(config);
        commands.push(command);
        proof {
            assert(commands_view(commands@) =~= seq![command@]);
        }
        commands
    }

    /// The user asked for a rescan: complains when the URL is unusable; otherwise
    /// scans, and connects too unless a connection is up or on its way.
    pub fn refresh_manually(&mut self, config: &Config) -> (commands: Vec<SessionCommand>)
        requires
            old(self)@.next_async_request_id < u64::MAX - 1,
        ensures
            old(self)@.ids_issued_in_order(),
            final(self)@.ids_issued_in_order(),
            final(self)@ == old(self)@.refresh_manually(config.intiface_websocket_url@).0,
            commands_view(commands@) == old(self)@.refresh_manually(config.intiface_websocket_url@).1,
            !spec_is_valid_url(config.intiface_websocket_url@) ==> commands@.len() == 0,
            spec_is_valid_url(config.intiface_websocket_url@) ==> commands_view(commands@)
                == rescan_commands(old(self)@, trimmed(config.intiface_websocket_url@)),
            spec_is_valid_url(config.intiface_websocket_url@) && !old(self)@.connect_in_progress
                && old(self)@.connect_status_error is Some ==> commands_view(commands@) == seq![
                SessionCommandView::Discover {
                    request_id: (old(self)@.next_async_request_id + 1) as u64,
                },
                SessionCommandView::Connect {
                    request_id: (old(self)@.next_async_request_id + 2) as u64,
                    url: trimmed(config.intiface_websocket_url@),
                },
            ],
    {
        proof {
            use_type_invariant(&*self);
        }
        let mut commands: Vec<SessionCommand> = Vec::new();
        if !is_valid_url(config.intiface_websocket_url.as_str()) {
            self.connect_status_error = Some(String::from_str(SCAN_NEEDS_URL_MESSAGE));
            proof {
                assert(commands_view(commands@) =~= Seq::empty());
            }
            return commands;
        }
        let discover = self.start_discovery();
        commands.push(discover);
        if !self.is_connected_optimistically() {
            let connect = self.start_connect(config);
            commands.push(connect);
            proof {
                assert(commands_view(commands@) =~= seq![discover@, connect@]);
            }
        } else {
            proof {
                assert(commands_view(commands@) =~= seq![discover@]);
            }
        }
        commands
    }

    /// Takes in the answer to a connect or discovery request. Answers to any but
    /// the latest request of their kind change nothing.
    pub fn handle_async_result(&mut self, result: SessionAsyncResult, _config: &mut Config)
        ensures
            old(self)@.ids_issued_in_order(),
            final(self)@.ids_issued_in_order(),
            final(self)@ == old(self)@.handle_async_result(result@),
            *final(_config) == *old(_config),
    {
        proof {
            use_type_invariant(&*self);
        }
        match result {
            SessionAsyncResult::Connect { request_id, result } => {
                if self.latest_connect_request_id != Some(request_id) {
                    return;
                }
                self.connect_in_progress = false;
                match result {
                    Ok(()) => {
                        self.connect_status_error = None;
                    },
                    Err(error) => {
                        self.connect_status_error = Some(error);
                    },
                }
            },
            SessionAsyncResult::Discovery { request_id, result } => {
                if self.latest_discovery_request_id != Some(request_id) {
                    return;
                }
                self.discovery_in_progress = false;
                match result {
                    Ok(toys) => {
                        let count = toys.len();
                        let message = if count == 0 {
                            String::from_str(NO_TOYS_MESSAGE)
                        } else {
                            let mut message = String::from_str("Discovered ");
                            push_decimal(&mut message, count as u64);
                            message.append(" toy(s).");
                            message
                        };
                        proof {
                            assert(toys_view(toys@).len() == count);
                        }
                        self.toy_status = Some(message);
                        self.discovered_toys = toys;
                    },
                    Err(error) => {
                        self.toy_status = Some(error);
                        self.discovered_toys = Vec::new();
                        proof {
                            assert(toys_view(self.discovered_toys@) =~= Seq::empty());
                        }
                    },
                }
            },
        }
    }

    pub fn discovered_toys(&self) -> (r: &[DiscoveredToy])
        ensures
            toys_view(r@) == self@.discovered_toys,
    {
        self.discovered_toys.as_slice()
    }

    pub fn discovery_in_progress(&self) -> (r: bool)
        ensures
            r == self@.discovery_in_progress,
    {
        self.discovery_in_progress
    }

    pub fn connect_in_progress(&self) -> (r: bool)
        ensures
            r == self@.connect_in_progress,
    {
        self.connect_in_progress
    }

    pub fn toy_status(&self) -> (r: Option<&str>)
        ensures
            opt_str_view(r) == self@.toy_status,
    {
        match &self.toy_status {
            Some(status) => Some(status.as_str()),
            None => None,
        }
    }

    /// The status line for the Intiface section, given whether the client is
    /// connected and how many seconds ago it last saw an event.
    pub fn connection_status_label(&self, connected: bool, last_event_secs: Option<u64>) -> (r:
        String)
        ensures
            r@ == self@.connection_status_label(connected, last_event_secs),
    {
        if self.connect_in_progress {
            return String::from_str("Intiface: connecting...");
        }
        if let Some(error) = &self.connect_status_error {
            let mut label = String::from_str("Intiface: ");
            label.append(error.as_str());
            return label;
        }
        if connected {
            match last_event_secs {
                Some(secs) => {
                    let mut label = String::from_str("Intiface: connected, last event ");
                    push_decimal(&mut label, secs);
                    label.append("s ago");
                    label
                },
                None => String::from_str("Intiface: connected."),
            }
        } else {
            String::from_str("Intiface: not connected.")
        }
    }
}


// ----------------------------------------------------------------------------
// Properties of the controller

/// An answer to a request that is not the latest of its kind changes nothing.
pub proof fn stale_answers_change_nothing(v: SessionView, answer: SessionAsyncResultView)
    requires
        match answer {
            SessionAsyncResultView::Connect { request_id, .. } => v.latest_connect_request_id
                != Some(request_id),
            SessionAsyncResultView::Discovery { request_id, .. } => v.latest_discovery_request_id
                != Some(request_id),
        },
    ensures
        v.handle_async_result(answer) == v,
{
}

/// A new request gets an id above every id issued before, so once a newer
/// connect (or discovery) request is out, the answer to an older one is ignored.
pub proof fn newer_requests_supersede_older_ones(
    v: SessionView,
    url: Seq<char>,
    older_id: u64,
    connect_result: Result<(), Seq<char>>,
    discovery_result: Result<Seq<(u32, Seq<char>)>, Seq<char>>,
)
    requires
        v.ids_issued_in_order(),
        v.next_async_request_id < u64::MAX,
        older_id <= v.next_async_request_id,
    ensures
        ({
            let after = v.start_connect(url).0;
            &&& after.ids_issued_in_order()
            &&& after.latest_connect_request_id->0 > older_id
            &&& after.handle_async_result(
                SessionAsyncResultView::Connect { request_id: older_id, result: connect_result },
            ) == after
        }),
        ({
            let after = v.start_discovery().0;
            &&& after.ids_issued_in_order()
            &&& after.latest_discovery_request_id->0 > older_id
            &&& after.handle_async_result(
                SessionAsyncResultView::Discovery { request_id: older_id, result: discovery_result },
            ) == after
        }),
{
}

/// Committing the same URL a second time does nothing: no command, no change.
pub proof fn committing_the_same_url_twice_is_a_no_op(v: SessionView, url: Seq<char>)
    ensures
        ({
            let after = v.refresh_after_url_commit(url).0;
            after.refresh_after_url_commit(url) == (after, Seq::<SessionCommandView>::empty())
        }),
{
}

/// The commands of a rescan with a usable URL, from the controller's fields: a
/// scan with the next id, then a connect to `url` with the id after it unless a
/// connect is in progress or the last connect was answered without an error.
pub open spec fn rescan_commands(v: SessionView, url: Seq<char>) -> Seq<SessionCommandView> {
    let discover = SessionCommandView::Discover {
        request_id: (v.next_async_request_id + 1) as u64,
    };
    if v.connect_in_progress || (v.latest_connect_request_id is Some
        && v.connect_status_error is None) {
        seq![discover]
    } else {
        seq![
            discover,
            SessionCommandView::Connect {
                request_id: (v.next_async_request_id + 2) as u64,
                url,
            },
        ]
    }
}

/// After a failed or missing connection (none in progress, and an error recorded
/// or no connect ever issued), a rescan with a usable URL scans and reconnects to
/// the trimmed URL, with consecutive fresh ids.
pub proof fn rescan_reconnects_after_a_failure(v: SessionView, url: Seq<char>)
    requires
        spec_is_valid_url(url),
        !v.connect_in_progress,
        v.connect_status_error is Some || v.latest_connect_request_id is None,
        v.next_async_request_id < u64::MAX - 1,
    ensures
        v.refresh_manually(url).1 == seq![
            SessionCommandView::Discover { request_id: (v.next_async_request_id + 1) as u64 },
            SessionCommandView::Connect {
                request_id: (v.next_async_request_id + 2) as u64,
                url: trimmed(url),
            },
        ],
        v.refresh_manually(url).0.connect_in_progress,
        v.refresh_manually(url).0.discovery_in_progress,
{
}

/// A rescan never issues a second connect while a connection is up or on its way.
pub proof fn rescan_connects_only_when_needed(v: SessionView, url: Seq<char>)
    requires
        spec_is_valid_url(url),
        v.connected_optimistically(),
    ensures
        v.refresh_manually(url).1 == seq![v.start_discovery().1],
{
}

} // verus!
