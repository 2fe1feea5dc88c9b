//! Decisions of a browser play session: how client events are reported to the
//! browser, when a character is created or joined, which chat messages are
//! forwarded, and which nearby entities a snapshot lists.
use crate::sorting::{nearest_selection, select_nearest};
use crate::text::{chars_of, decimal, decimal_string, is_unicode_whitespace, is_whitespace_char};
use vstd::prelude::*;
use vstd::string::StringExecFns;

verus! {

broadcast use vstd::string::group_string_axioms;

/// Entities farther than this many blocks are left out of a snapshot; the value
/// is the bit pattern of `512.0_f32`.
pub const SNAPSHOT_MAX_DISTANCE_BITS: u32 = 0x4400_0000;

/// A snapshot lists at most this many entities.
pub const SNAPSHOT_ENTITY_LIMIT: usize = 96;

/// Progress stages that a session reports to the browser.
#[derive(Clone, Copy, PartialEq, Eq, Debug)]
pub enum SessionStage {
    Connecting,
    Registered,
    CharacterCreated,
    InGame,
    CreatingCharacter,
    JoiningCharacter,
    BrowserDisconnected,
}

/// The name under which the browser receives a stage.
pub open spec fn stage_label_of(stage: SessionStage) -> Seq<char> {
    match stage {
        SessionStage::Connecting => "connecting"@,
        SessionStage::Registered => "registered"@,
        SessionStage::CharacterCreated => "character_created"@,
        SessionStage::InGame => "in_game"@,
        SessionStage::CreatingCharacter => "creating_character"@,
        SessionStage::JoiningCharacter => "joining_character"@,
        SessionStage::BrowserDisconnected => "browser_disconnected"@,
    }
}

pub fn stage_label(stage: SessionStage) -> (r: &'static str)
    ensures
        r@ == stage_label_of(stage),
{
    match stage {
        SessionStage::Connecting => "connecting",
        SessionStage::Registered => "registered",
        SessionStage::CharacterCreated => "character_created",
        SessionStage::InGame => "in_game",
        SessionStage::CreatingCharacter => "creating_character",
        SessionStage::JoiningCharacter => "joining_character",
        SessionStage::BrowserDisconnected => "browser_disconnected",
    }
}

/// What the session remembers between ticks.
#[derive(Clone, Copy, PartialEq, Eq, Debug)]
pub struct SessionState {
    pub character_create_requested: bool,
    pub character_join_requested: bool,
    pub in_game: bool,
}

impl SessionState {
    /// A fresh session: nothing requested, not in game.
    pub fn new() -> (s: Self)
        ensures
            !s.character_create_requested,
            !s.character_join_requested,
            !s.in_game,
    {
        SessionState {
            character_create_requested: false,
            character_join_requested: false,
            in_game: false,
        }
    }
}

/// An event of the game client, as far as the session reacts to it.
pub enum ClientEvent {
    CharacterCreated,
    CharacterJoined,
    CharacterError(String),
    Disconnect,
    /// The server disconnects after this many seconds.
    DisconnectionNotification(u64),
    /// A chat message, in the text form that the session forwards.
    Chat(String),
    /// Any other event, which the session ignores.
    Other,
}

/// A message to the browser other than a snapshot.
pub enum SessionNotice {
    Stage(SessionStage),
    Event(String),
    Error(String),
}

/// What the session does on a client event.
pub enum EventReaction {
    Notify(SessionNotice),
    /// Notify, then ask the client for the character list again.
    NotifyAndReloadCharacters(SessionNotice),
    Ignore,
    /// End the session with this error.
    EndSession(String),
}

/// The state after an event.
pub open spec fn after_event(s: SessionState, e: ClientEvent) -> SessionState {
    match e {
        ClientEvent::CharacterJoined => SessionState { in_game: true, ..s },
        ClientEvent::CharacterError(_) => SessionState {
            character_create_requested: false,
            character_join_requested: false,
            ..s
        },
        _ => s,
    }
}

/// The reaction to an event.
pub open spec fn reaction_matches(r: EventReaction, e: ClientEvent) -> bool {
    match e {
        ClientEvent::CharacterCreated => r matches EventReaction::NotifyAndReloadCharacters(
            SessionNotice::Stage(SessionStage::CharacterCreated),
        ),
        ClientEvent::CharacterJoined => r matches EventReaction::Notify(
            SessionNotice::Stage(SessionStage::InGame),
        ),
        ClientEvent::CharacterError(m) => r matches EventReaction::Notify(SessionNotice::Error(t))
            && t@ == m@,
        ClientEvent::Disconnect => r matches EventReaction::EndSession(t) && t@
            == "server disconnected the session"@,
        ClientEvent::DisconnectionNotification(secs) => r matches EventReaction::Notify(
            SessionNotice::Event(t),
        ) && t@ == "disconnecting in "@ + decimal(secs as nat) + "s"@,
        ClientEvent::Chat(m) => r matches EventReaction::Notify(SessionNotice::Event(t)) && t@
            == m@,
        ClientEvent::Other => r is Ignore,
    }
}

/// A request for the character list step.
pub enum CharacterRequest {
    Wait,
    /// Create the session's character (with the starter sword).
    Create,
    /// Join the character with this id.
    Join(i64),
}

/// The character step: outside the game, create a character once the list has
/// loaded empty, otherwise join the first listed character; each only once until
/// a character error resets the requests.
pub open spec fn character_step_of(
    s: SessionState,
    list_loading: bool,
    list_empty: bool,
    first_character_id: Option<i64>,
) -> (SessionState, CharacterRequest) {
    if s.in_game {
        (s, CharacterRequest::Wait)
    } else if !list_loading && list_empty && !s.character_create_requested {
        (SessionState { character_create_requested: true, ..s }, CharacterRequest::Create)
    } else if !list_loading && !s.character_join_requested && first_character_id is Some {
        (
            SessionState { character_join_requested: true, ..s },
            CharacterRequest::Join(first_character_id->0),
        )
    } else {
        (s, CharacterRequest::Wait)
    }
}

impl SessionState {
    /// Updates the state on a client event and says how the session reacts.
    pub fn on_event(&mut self, event: ClientEvent) -> (r: EventReaction)
        ensures
            *final(self) == after_event(*old(self), event),
            reaction_matches(r, event),
    {
        match event {
            ClientEvent::CharacterCreated => EventReaction::NotifyAndReloadCharacters(
                SessionNotice::Stage(SessionStage::CharacterCreated),
            ),
            ClientEvent::CharacterJoined => {
                self.in_game = true;
                EventReaction::Notify(SessionNotice::Stage(SessionStage::InGame))
            },
            ClientEvent::CharacterError(message) => {
                self.character_create_requested = false;
                self.character_join_requested = false;
                EventReaction::Notify(SessionNotice::Error(message))
            },
            ClientEvent::Disconnect => EventReaction::EndSession(
                String::from_str("server disconnected the session"),
            ),
            ClientEvent::DisconnectionNotification(seconds) => {
                let mut text = String::from_str("disconnecting in ");
                let digits = decimal_string(seconds);
                text.append(digits.as_str());
                text.append("s");
                EventReaction::Notify(SessionNotice::Event(text))
            },
            ClientEvent::Chat(message) => EventReaction::Notify(SessionNotice::Event(message)),
            ClientEvent::Other => EventReaction::Ignore,
        }
    }

    /// Decides, from the character list, whether to create or join a character.
    pub fn character_step(
        &mut self,
        list_loading: bool,
        list_empty: bool,
        first_character_id: Option<i64>,
    ) -> (r: CharacterRequest)
        ensures
            (*final(self), r) == character_step_of(
                *old(self),
                list_loading,
                list_empty,
                first_character_id,
            ),
    {
        if self.in_game {
            CharacterRequest::Wait
        } else if !list_loading && list_empty && !self.character_create_requested {
            self.character_create_requested = true;
            CharacterRequest::Create
        } else if !list_loading && !self.character_join_requested {
            match first_character_id {
                Some(id) => {
                    self.character_join_requested = true;
                    CharacterRequest::Join(id)
                },
                None => CharacterRequest::Wait,
            }
        } else {
            CharacterRequest::Wait
        }
    }
}

/// The stage that the session reports when it makes a character request.
pub fn request_stage(request: &CharacterRequest) -> (r: Option<SessionStage>)
    ensures
        match request {
            CharacterRequest::Wait => r is None,
            CharacterRequest::Create => r == Some(SessionStage::CreatingCharacter),
            CharacterRequest::Join(_) => r == Some(SessionStage::JoiningCharacter),
        },
{
    match request {
        CharacterRequest::Wait => None,
        CharacterRequest::Create => Some(SessionStage::CreatingCharacter),
        CharacterRequest::Join(_) => Some(SessionStage::JoiningCharacter),
    }
}

/// Whether a chat message from the browser is sent on: only when something other
/// than whitespace is left after trimming.
pub open spec fn chat_worth_sending(message: Seq<char>) -> bool {
    exists|i: int| 0 <= i < message.len() && !is_unicode_whitespace(#[trigger] message[i])
}

pub fn chat_should_send(message: &str) -> (r: bool)
    ensures
        r == chat_worth_sending(message@),
{
    let cs = chars_of(message);
    let mut i: usize = 0;
    while i < cs.len()
        invariant
            cs@ == message@,
            i <= cs.len(),
            forall|j: int| 0 <= j < i ==> is_unicode_whitespace(#[trigger] cs@[j]),
        decreases cs.len() - i,
    {
        if !is_whitespace_char(cs[i]) {
            assert(!is_unicode_whitespace(message@[i as int]));
            return true;
        }
        i = i + 1;
    }
    false
}

/// The entities that a snapshot lists: those within 512 blocks, nearest first
/// (entities at equal distance in the order they came), at most 96. Each
/// candidate carries its distance as the bits of a non-negative `f32`.
pub fn snapshot_selection<T>(candidates: Vec<(u32, T)>) -> (out: Vec<(u32, T)>)
    ensures
        nearest_selection(
            out@,
            candidates@,
            SNAPSHOT_MAX_DISTANCE_BITS,
            SNAPSHOT_ENTITY_LIMIT as nat,
        ),
{
    select_nearest(candidates, SNAPSHOT_MAX_DISTANCE_BITS, SNAPSHOT_ENTITY_LIMIT)
}

/// Where a session is in its life.
#[derive(Clone, Copy, PartialEq, Eq, Debug)]
pub enum SessionPhase {
    /// Not started yet.
    Starting,
    /// Connecting the game client to the server.
    Connecting,
    /// The client is registered; the tick loop runs.
    Running,
    /// The session is over.
    Ended,
}

/// What happens to a session as a whole.
pub enum LifecycleEvent {
    Start,
    /// The game client connected and registered.
    ClientConnected,
    /// The browser's command channel closed.
    BrowserClosed,
    /// The session failed with this error.
    Failed(String),
}

/// The lifecycle of a session: it reports `connecting` when it starts,
/// `registered` once the client connected, `browser_disconnected` when the
/// browser goes (which ends it), and one error for a failure (which ends it too);
/// any other event changes nothing and reports nothing.
pub open spec fn lifecycle_matches(
    phase: SessionPhase,
    event: LifecycleEvent,
    next: SessionPhase,
    notice: Option<SessionNotice>,
) -> bool {
    match (phase, event) {
        (SessionPhase::Starting, LifecycleEvent::Start) => next == SessionPhase::Connecting
            && notice matches Some(SessionNotice::Stage(SessionStage::Connecting)),
        (SessionPhase::Connecting, LifecycleEvent::ClientConnected) => next == SessionPhase::Running
            && notice matches Some(SessionNotice::Stage(SessionStage::Registered)),
        (SessionPhase::Running, LifecycleEvent::BrowserClosed) => next == SessionPhase::Ended
            && notice matches Some(SessionNotice::Stage(SessionStage::BrowserDisconnected)),
        (SessionPhase::Connecting, LifecycleEvent::Failed(m)) => next == SessionPhase::Ended
            && (notice matches Some(SessionNotice::Error(t)) && t@ == m@),
        (SessionPhase::Running, LifecycleEvent::Failed(m)) => next == SessionPhase::Ended
            && (notice matches Some(SessionNotice::Error(t)) && t@ == m@),
        _ => next == phase && notice is None,
    }
}

/// The next phase of a session and the message it sends, if any.
pub fn lifecycle_step(phase: SessionPhase, event: LifecycleEvent) -> (r: (
    SessionPhase,
    Option<SessionNotice>,
))
    ensures
        lifecycle_matches(phase, event, r.0, r.1),
{
    match (phase, event) {
        (SessionPhase::Starting, LifecycleEvent::Start) => (
            SessionPhase::Connecting,
            Some(SessionNotice::Stage(SessionStage::Connecting)),
        ),
        (SessionPhase::Connecting, LifecycleEvent::ClientConnected) => (
            SessionPhase::Running,
            Some(SessionNotice::Stage(SessionStage::Registered)),
        ),
        (SessionPhase::Running, LifecycleEvent::BrowserClosed) => (
            SessionPhase::Ended,
            Some(SessionNotice::Stage(SessionStage::BrowserDisconnected)),
        ),
        (SessionPhase::Connecting, LifecycleEvent::Failed(m)) => (
            SessionPhase::Ended,
            Some(SessionNotice::Error(m)),
        ),
        (SessionPhase::Running, LifecycleEvent::Failed(m)) => (
            SessionPhase::Ended,
            Some(SessionNotice::Error(m)),
        ),
        (p, _) => (p, None),
    }
}

// ---------------------------------------------------------------------------
// Laws of the session state machine
// ---------------------------------------------------------------------------
/// A character is requested for creation at most once: right after a step that
/// requested one, no further step requests another (until a character error).
pub proof fn law_create_requested_once(
    s: SessionState,
    loading1: bool,
    empty1: bool,
    id1: Option<i64>,
    loading2: bool,
    empty2: bool,
    id2: Option<i64>,
)
    ensures
        character_step_of(s, loading1, empty1, id1).1 is Create ==> character_step_of(
            character_step_of(s, loading1, empty1, id1).0,
            loading2,
            empty2,
            id2,
        ).1 !is Create,
{
}

/// A character is joined at most once: right after a step that asked to join, no
/// further step asks again (until a character error).
pub proof fn law_join_requested_once(
    s: SessionState,
    loading1: bool,
    empty1: bool,
    id1: Option<i64>,
    loading2: bool,
    empty2: bool,
    id2: Option<i64>,
)
    ensures
        character_step_of(s, loading1, empty1, id1).1 is Join ==> character_step_of(
            character_step_of(s, loading1, empty1, id1).0,
            loading2,
            empty2,
            id2,
        ).1 !is Join,
{
}

/// Only a character error clears the requests; no event leaves the game once
/// joined; and in game the character step neither requests anything nor changes
/// the state.
pub proof fn law_requests_and_game_persist(
    s: SessionState,
    e: ClientEvent,
    loading: bool,
    empty: bool,
    id: Option<i64>,
)
    ensures
        !(e is CharacterError) ==> after_event(s, e).character_create_requested
            == s.character_create_requested && after_event(s, e).character_join_requested
            == s.character_join_requested,
        s.in_game ==> after_event(s, e).in_game,
        s.in_game ==> character_step_of(s, loading, empty, id) == (s, CharacterRequest::Wait),
{
}

/// A character error lets the next step request a character again: creation
/// when the list is loaded and empty, joining when it names a first character.
pub proof fn law_error_allows_retry(
    s: SessionState,
    message: String,
    loading: bool,
    empty: bool,
    id: Option<i64>,
)
    requires
        !s.in_game,
        !loading,
    ensures
        empty ==> character_step_of(
            after_event(s, ClientEvent::CharacterError(message)),
            loading,
            empty,
            id,
        ).1 is Create,
        !empty && id is Some ==> character_step_of(
            after_event(s, ClientEvent::CharacterError(message)),
            loading,
            empty,
            id,
        ).1 == CharacterRequest::Join(id->0),
{
}

/// An ended session stays ended and sends nothing more; `registered` is only
/// reported by a session that was connecting.
pub proof fn law_lifecycle_order(
    phase: SessionPhase,
    event: LifecycleEvent,
    next: SessionPhase,
    notice: Option<SessionNotice>,
)
    requires
        lifecycle_matches(phase, event, next, notice),
    ensures
        phase == SessionPhase::Ended ==> next == SessionPhase::Ended && notice is None,
        notice matches Some(SessionNotice::Stage(SessionStage::Registered)) ==> phase
            == SessionPhase::Connecting && next == SessionPhase::Running,
        notice matches Some(SessionNotice::Stage(SessionStage::Connecting)) ==> phase
            == SessionPhase::Starting,
{
}

/// A failure ends any session that has started and not yet ended, and reports
/// the failure's own message as the session's error.
pub proof fn law_failure_ends_session(
    phase: SessionPhase,
    message: String,
    next: SessionPhase,
    notice: Option<SessionNotice>,
)
    requires
        phase != SessionPhase::Starting,
        phase != SessionPhase::Ended,
        lifecycle_matches(phase, LifecycleEvent::Failed(message), next, notice),
    ensures
        next == SessionPhase::Ended,
        notice matches Some(SessionNotice::Error(t)) && t@ == message@,
{
}

/// Each phase of a session is entered by one event: connecting by starting,
/// running by the client connecting, and ended by the browser closing or a
/// failure; a closed browser is reported as `browser_disconnected`.
pub proof fn law_lifecycle_transitions(
    phase: SessionPhase,
    event: LifecycleEvent,
    next: SessionPhase,
    notice: Option<SessionNotice>,
)
    requires
        lifecycle_matches(phase, event, next, notice),
    ensures
        phase == SessionPhase::Starting && event is Start ==> next == SessionPhase::Connecting,
        phase == SessionPhase::Connecting && event is ClientConnected ==> next
            == SessionPhase::Running,
        phase == SessionPhase::Running && event is BrowserClosed ==> next == SessionPhase::Ended
            && notice == Some(SessionNotice::Stage(SessionStage::BrowserDisconnected)),
        next != phase ==> notice is Some,
{
}

/// How the session answers each client event: a created character is reported
/// and the list reloaded; joining reports `in_game`; a character error and a chat
/// message are passed on with their own text; a disconnect ends the session with
/// "server disconnected the session"; a disconnection notice is reported as
/// "disconnecting in <seconds>s"; other events are ignored. Joining enters the
/// game and a character error clears both requests.
pub proof fn law_event_reactions(s: SessionState, e: ClientEvent, r: EventReaction)
    requires
        reaction_matches(r, e),
    ensures
        e is CharacterCreated ==> r matches EventReaction::NotifyAndReloadCharacters(
            SessionNotice::Stage(SessionStage::CharacterCreated),
        ),
        e is CharacterJoined ==> (r matches EventReaction::Notify(
            SessionNotice::Stage(SessionStage::InGame),
        )) && after_event(s, e).in_game,
        e matches ClientEvent::CharacterError(m) ==> (r matches EventReaction::Notify(
            SessionNotice::Error(t),
        ) && t@ == m@) && !after_event(s, e).character_create_requested
            && !after_event(s, e).character_join_requested,
        e matches ClientEvent::Chat(m) ==> (r matches EventReaction::Notify(SessionNotice::Event(t))
            && t@ == m@),
        e is Disconnect ==> (r matches EventReaction::EndSession(t) && t@
            == "server disconnected the session"@),
        e matches ClientEvent::DisconnectionNotification(secs) ==> (r matches EventReaction::Notify(
            SessionNotice::Event(t),
        ) && t@ == "disconnecting in "@ + decimal(secs as nat) + "s"@),
        e is Other ==> r is Ignore && after_event(s, e) == s,
{
}

/// The names under which the browser sees the stages.
pub proof fn law_stage_names()
    ensures
        stage_label_of(SessionStage::Connecting) == "connecting"@,
        stage_label_of(SessionStage::Registered) == "registered"@,
        stage_label_of(SessionStage::CharacterCreated) == "character_created"@,
        stage_label_of(SessionStage::InGame) == "in_game"@,
        stage_label_of(SessionStage::CreatingCharacter) == "creating_character"@,
        stage_label_of(SessionStage::JoiningCharacter) == "joining_character"@,
        stage_label_of(SessionStage::BrowserDisconnected) == "browser_disconnected"@,
{
}

/// A chat message is sent on exactly when it holds something other than
/// whitespace: an empty or all-whitespace message never is, and one whose first
/// character is not whitespace always is.
pub proof fn law_chat_filter(message: Seq<char>)
    ensures
        (forall|i: int| 0 <= i < message.len() ==> is_unicode_whitespace(#[trigger] message[i]))
            ==> !chat_worth_sending(message),
        message.len() > 0 && !is_unicode_whitespace(message[0]) ==> chat_worth_sending(message),
{
}

} // verus!
