//! The client state machine: who is online, what has been said, and the
//! frames that the client sends.
//!
//! The machine does no input or output. Its host reads frames from the
//! transport and text from the input field, hands them in, and sends what the
//! machine hands back.

use crate::codec::{
    decode, decode_payload, decoded, encode, encode_payload, encoded, payload_decoded,
    payload_encoded, ChatMessage, ChatMessageView, ProtocolEvent, ProtocolEventView,
};
use crate::error::ChatError;
use crate::text::{avatar_of, blank, derive_avatar, is_blank, same_text, texts_of};
use vstd::prelude::*;

verus! {

/// One user who is online.
#[derive(Clone, Debug, PartialEq, Eq)]
pub struct UserProfile {
    pub name: String,
    pub avatar_url: String,
}

/// The mathematical content of a [`UserProfile`].
pub struct UserProfileView {
    pub name: Seq<char>,
    pub avatar_url: Seq<char>,
}

impl View for UserProfile {
    type V = UserProfileView;

    open spec fn view(&self) -> UserProfileView {
        UserProfileView { name: self.name@, avatar_url: self.avatar_url@ }
    }
}

/// The profile of the user called `name`.
pub open spec fn profile_of(name: Seq<char>) -> UserProfileView {
    UserProfileView { name, avatar_url: avatar_of(name) }
}

/// The roster that lists the users called `names`, one profile for each name,
/// in the same order.
pub open spec fn roster_of(names: Seq<Seq<char>>) -> Seq<UserProfileView> {
    names.map_values(|name: Seq<char>| profile_of(name))
}

/// The contents of `users`, in order.
pub open spec fn profiles_of(users: Seq<UserProfile>) -> Seq<UserProfileView> {
    users.map_values(|u: UserProfile| u@)
}

/// The contents of `messages`, in order.
pub open spec fn lines_of(messages: Seq<ChatMessage>) -> Seq<ChatMessageView> {
    messages.map_values(|m: ChatMessage| m@)
}

/// What an inbound event did to the state.
#[derive(Clone, Copy, Debug, PartialEq, Eq, Structural)]
pub enum ChangeSignal {
    /// The roster was replaced.
    RosterChanged,
    /// One chat line was added to the log.
    LogChanged,
    /// The event asks nothing of a client; nothing changed.
    Unchanged,
}

/// What the host hands to [`Chat::update`].
#[derive(Clone, Debug, PartialEq, Eq)]
pub enum Msg {
    /// A frame came in from the transport.
    HandleMsg(String),
    /// The user asked to send the text of the input field.
    SubmitMessage(String),
    /// The user switched between the light and the dark theme.
    ToggleDarkMode,
}

/// The mathematical content of a [`Msg`].
pub enum MsgView {
    HandleMsg(Seq<char>),
    SubmitMessage(Seq<char>),
    ToggleDarkMode,
}

impl View for Msg {
    type V = MsgView;

    open spec fn view(&self) -> MsgView {
        match self {
            Msg::HandleMsg(frame) => MsgView::HandleMsg(frame@),
            Msg::SubmitMessage(text) => MsgView::SubmitMessage(text@),
            Msg::ToggleDarkMode => MsgView::ToggleDarkMode,
        }
    }
}

/// What the host has to do after an update.
#[derive(Clone, Debug, PartialEq, Eq)]
pub struct Effect {
    /// The state changed: draw it again.
    pub render: bool,
    /// A frame to send, if any. After a frame from the input field, the field
    /// is to be cleared.
    pub outbound: Option<String>,
    /// Why the inbound frame was dropped, if it was.
    pub dropped: Option<ChatError>,
}

/// The mathematical content of an [`Effect`].
pub struct EffectView {
    pub render: bool,
    pub outbound: Option<Seq<char>>,
    pub dropped: Option<ChatError>,
}

impl View for Effect {
    type V = EffectView;

    open spec fn view(&self) -> EffectView {
        EffectView {
            render: self.render,
            outbound: match self.outbound {
                Some(frame) => Some(frame@),
                None => None,
            },
            dropped: self.dropped,
        }
    }
}

/// The state of a session.
pub struct Chat {
    username: String,
    users: Vec<UserProfile>,
    messages: Vec<ChatMessage>,
    dark_mode: bool,
}

/// The mathematical content of a [`Chat`].
pub struct ChatView {
    /// The name under which the session was started.
    pub username: Seq<char>,
    /// The users of the latest roster snapshot, in the server's order.
    pub roster: Seq<UserProfileView>,
    /// Every chat line received so far, oldest first.
    pub log: Seq<ChatMessageView>,
    pub dark_mode: bool,
}

/// The state in which a session under `username` starts.
pub open spec fn initial(username: Seq<char>) -> ChatView {
    ChatView { username, roster: Seq::empty(), log: Seq::empty(), dark_mode: false }
}

/// Every profile of `roster` has the avatar that belongs to its name.
pub open spec fn avatars_derived(roster: Seq<UserProfileView>) -> bool {
    forall|i: int| 0 <= i < roster.len() ==> #[trigger] roster[i] == profile_of(roster[i].name)
}

/// The state after a roster snapshot: the roster is replaced as a whole by
/// one profile for each name, in the order given. Nothing else changes.
pub open spec fn with_roster(state: ChatView, names: Seq<Seq<char>>) -> ChatView {
    ChatView { roster: roster_of(names), ..state }
}

/// The state after a chat line: the line is added at the end of the log.
/// Nothing else changes.
pub open spec fn with_line(state: ChatView, line: ChatMessageView) -> ChatView {
    ChatView { log: state.log.push(line), ..state }
}

/// The state after the inbound event `event`, and what is signalled.
///
/// A `users` event replaces the roster. A `message` event whose payload is a
/// chat line adds that line to the log; one whose payload is malformed is
/// dropped and leaves the state as it was. A `register` event asks nothing of
/// a client.
pub open spec fn applied(state: ChatView, event: ProtocolEventView) -> (
    ChatView,
    Result<ChangeSignal, ChatError>,
) {
    match event {
        ProtocolEventView::Users(names) => (
            with_roster(state, names),
            Ok(ChangeSignal::RosterChanged),
        ),
        ProtocolEventView::Message(payload) => match payload_decoded(payload) {
            Ok(line) => (with_line(state, line), Ok(ChangeSignal::LogChanged)),
            Err(_) => (state, Err(ChatError::MalformedPayload)),
        },
        ProtocolEventView::Register(_) => (state, Ok(ChangeSignal::Unchanged)),
    }
}

/// The frame that is sent when the user submits `text` in the state `state`:
/// none for a blank text, else a `message` frame whose payload names the
/// session's user as the sender and holds the text as it was typed.
pub open spec fn submitted(state: ChatView, text: Seq<char>) -> Option<Seq<char>> {
    if is_blank(text) {
        None
    } else {
        Some(
            encoded(
                ProtocolEventView::Message(
                    payload_encoded(ChatMessageView { from: state.username, text }),
                ),
            ),
        )
    }
}

/// The state after the host's message `msg`, and what the host is to do.
pub open spec fn updated(state: ChatView, msg: MsgView) -> (ChatView, EffectView) {
    match msg {
        MsgView::HandleMsg(frame) => match decoded(frame) {
            Err(e) => (state, EffectView { render: false, outbound: None, dropped: Some(e) }),
            Ok(event) => match applied(state, event).1 {
                Ok(signal) => (
                    applied(state, event).0,
                    EffectView {
                        render: signal != ChangeSignal::Unchanged,
                        outbound: None,
                        dropped: None,
                    },
                ),
                Err(e) => (state, EffectView { render: false, outbound: None, dropped: Some(e) }),
            },
        },
        MsgView::SubmitMessage(text) => (
            state,
            EffectView { render: false, outbound: submitted(state, text), dropped: None },
        ),
        MsgView::ToggleDarkMode => (
            ChatView { dark_mode: !state.dark_mode, ..state },
            EffectView { render: true, outbound: None, dropped: None },
        ),
    }
}

/// A user called `name` is on `roster`.
pub open spec fn listed(roster: Seq<UserProfileView>, name: Seq<char>) -> bool {
    exists|i: int| 0 <= i < roster.len() && (#[trigger] roster[i]).name == name
}

impl View for Chat {
    type V = ChatView;

    closed spec fn view(&self) -> ChatView {
        ChatView {
            username: self.username@,
            roster: profiles_of(self.users@),
            log: lines_of(self.messages@),
            dark_mode: self.dark_mode,
        }
    }
}

impl Chat {
    #[verifier::type_invariant]
    spec fn avatars_match(self) -> bool {
        avatars_derived(profiles_of(self.users@))
    }

    /// Starts a session under `username`: the state is empty, and the frame
    /// that registers the user is handed back for the host to send.
    pub fn create(username: &str) -> (r: (Chat, String))
        ensures
            r.0@ == initial(username@),
            r.1@ == encoded(ProtocolEventView::Register(username@)),
            decoded(r.1@) == Ok::<ProtocolEventView, ChatError>(
                ProtocolEventView::Register(username@),
            ),
    {
        let frame = encode(&ProtocolEvent::Register(username.to_owned()));
        let chat = Chat {
            username: username.to_owned(),
            users: Vec::new(),
            messages: Vec::new(),
            dark_mode: false,
        };
        assert(profiles_of(chat.users@) =~= Seq::<UserProfileView>::empty());
        assert(lines_of(chat.messages@) =~= Seq::<ChatMessageView>::empty());
        (chat, frame)
    }

    /// The name under which the session was started.
    pub fn username(&self) -> (name: &str)
        ensures
            name@ == self@.username,
    {
        self.username.as_str()
    }

    /// The roster. Every profile in it has the avatar that belongs to its
    /// name.
    pub fn users(&self) -> (users: &Vec<UserProfile>)
        ensures
            profiles_of(users@) == self@.roster,
            avatars_derived(self@.roster),
    {
        proof {
            use_type_invariant(self);
        }
        &self.users
    }

    /// The log, oldest line first.
    pub fn messages(&self) -> (messages: &Vec<ChatMessage>)
        ensures
            lines_of(messages@) == self@.log,
    {
        &self.messages
    }

    /// Whether the dark theme is on.
    pub fn dark_mode(&self) -> (on: bool)
        ensures
            on == self@.dark_mode,
    {
        self.dark_mode
    }

    /// Tells whether `name` is the name of the session's user: whether a
    /// profile or a chat line under that name is the user's own.
    pub fn is_own(&self, name: &str) -> (own: bool)
        ensures
            own == (name@ == self@.username),
    {
        same_text(name, self.username.as_str())
    }

    /// The avatar to show beside a chat line from `name`: that of the user's
    /// profile where a user of that name is on the roster, none where the
    /// sender is not online.
    pub fn avatar_for(&self, name: &str) -> (avatar: Option<&str>)
        ensures
            match avatar {
                Some(url) => listed(self@.roster, name@) && url@ == avatar_of(name@),
                None => !listed(self@.roster, name@),
            },
    {
        proof {
            use_type_invariant(self);
        }
        let mut i: usize = 0;
        while i < self.users.len()
            invariant
                i <= self.users.len(),
                avatars_derived(profiles_of(self.users@)),
                forall|j: int| 0 <= j < i ==> (#[trigger] profiles_of(self.users@)[j]).name != name@,
            decreases self.users.len() - i,
        {
            if same_text(self.users[i].name.as_str(), name) {
                assert(profiles_of(self.users@)[i as int].name == name@);
                return Some(self.users[i].avatar_url.as_str());
            }
            i = i + 1;
        }
        None
    }

    /// Replaces the roster by one profile for each of `names`, in that order.
    pub fn apply_users(&mut self, names: &Vec<String>)
        ensures
            final(self)@ == with_roster(old(self)@, texts_of(names@)),
    {
        let mut users: Vec<UserProfile> = Vec::new();
        let mut i: usize = 0;
        while i < names.len()
            invariant
                i <= names.len(),
                users@.len() == i,
                forall|j: int| 0 <= j < i ==> (#[trigger] users@[j])@ == profile_of(names@[j]@),
            decreases names.len() - i,
        {
            let name = names[i].clone();
            let avatar_url = derive_avatar(name.as_str());
            users.push(UserProfile { name, avatar_url });
            i = i + 1;
        }
        assert(profiles_of(users@) =~= roster_of(texts_of(names@)));
        self.users = users;
    }

    /// Adds `line` at the end of the log.
    pub fn apply_message(&mut self, line: ChatMessage)
        ensures
            final(self)@ == with_line(old(self)@, line@),
    {
        proof {
            use_type_invariant(&*self);
        }
        let mut messages: Vec<ChatMessage> = Vec::new();
        std::mem::swap(&mut messages, &mut self.messages);
        messages.push(line);
        assert(lines_of(messages@) =~= lines_of(old(self).messages@).push(line@));
        self.messages = messages;
    }

    /// Applies one inbound event to the state.
    ///
    /// Fails with `MalformedPayload`, and then changes nothing, where the
    /// event is a `message` whose payload is no chat line; never fails
    /// otherwise.
    pub fn apply_inbound(&mut self, event: ProtocolEvent) -> (r: Result<ChangeSignal, ChatError>)
        ensures
            (final(self)@, r) == applied(old(self)@, event@),
    {
        match event {
            ProtocolEvent::Users(names) => {
                self.apply_users(&names);
                Ok(ChangeSignal::RosterChanged)
            },
            ProtocolEvent::Message(payload) => match decode_payload(payload.as_str()) {
                Ok(line) => {
                    self.apply_message(line);
                    Ok(ChangeSignal::LogChanged)
                },
                Err(_) => Err(ChatError::MalformedPayload),
            },
            ProtocolEvent::Register(_) => Ok(ChangeSignal::Unchanged),
        }
    }

    /// Makes the frame for a text that the user submits.
    ///
    /// A blank text gives no frame. Any other text gives one `message` frame
    /// with the session's user as the sender. The state is not touched: the
    /// line enters the log only when the server sends it back, and the frame
    /// made here is one that, applied as an inbound frame, adds exactly this
    /// line.
    pub fn submit_message(&self, text: &str) -> (frame: Option<String>)
        ensures
            match frame {
                Some(f) => submitted(self@, text@) == Some(f@),
                None => submitted(self@, text@).is_none(),
            },
            frame matches Some(f) ==> ({
                let line = ChatMessageView { from: self@.username, text: text@ };
                &&& decoded(f@) == Ok::<ProtocolEventView, ChatError>(
                    ProtocolEventView::Message(payload_encoded(line)),
                )
                &&& payload_decoded(payload_encoded(line)) == Ok::<ChatMessageView, ChatError>(line)
                &&& updated(self@, MsgView::HandleMsg(f@)).0 == with_line(self@, line)
            }),
    {
        if blank(text) {
            None
        } else {
            let line = ChatMessage { from: self.username.clone(), text: text.to_owned() };
            let payload = encode_payload(&line);
            let frame = encode(&ProtocolEvent::Message(payload));
            Some(frame)
        }
    }

    /// Handles one message from the host.
    ///
    /// An inbound frame is decoded and applied; a frame that cannot be decoded,
    /// or whose payload cannot, is dropped with its reason and changes
    /// nothing. A submitted text gives at most one outbound frame and changes
    /// nothing. The theme switch flips the theme.
    pub fn update(&mut self, msg: Msg) -> (effect: Effect)
        ensures
            (final(self)@, effect@) == updated(old(self)@, msg@),
    {
        match msg {
            Msg::HandleMsg(frame) => match decode(frame.as_str()) {
                Err(e) => Effect { render: false, outbound: None, dropped: Some(e) },
                Ok(event) => match self.apply_inbound(event) {
                    Ok(signal) => Effect {
                        render: match signal {
                            ChangeSignal::Unchanged => false,
                            _ => true,
                        },
                        outbound: None,
                        dropped: None,
                    },
                    Err(e) => Effect { render: false, outbound: None, dropped: Some(e) },
                },
            },
            Msg::SubmitMessage(text) => {
                let outbound = self.submit_message(text.as_str());
                Effect { render: false, outbound, dropped: None }
            },
            Msg::ToggleDarkMode => {
                proof {
                    use_type_invariant(&*self);
                }
                self.dark_mode = !self.dark_mode;
                Effect { render: true, outbound: None, dropped: None }
            },
        }
    }
}

/// What becomes of an outbound frame once the transport has answered: a frame
/// that the transport did not take is reported as a `SendFailure`, never
/// passed over in silence, and never sent again by the machine.
pub fn send_outcome(accepted: bool) -> (r: Result<(), ChatError>)
    ensures
        r == if accepted {
            Ok::<(), ChatError>(())
        } else {
            Err::<(), ChatError>(ChatError::SendFailure)
        },
{
    if accepted {
        Ok(())
    } else {
        Err(ChatError::SendFailure)
    }
}

/// A roster snapshot replaces the roster: after two snapshots the roster is
/// that of the second, with nothing left of the first.
pub proof fn lemma_roster_replaced(
    state: ChatView,
    first: Seq<Seq<char>>,
    second: Seq<Seq<char>>,
)
    ensures
        ({
            let once = applied(state, ProtocolEventView::Users(first)).0;
            let twice = applied(once, ProtocolEventView::Users(second)).0;
            &&& twice.roster == roster_of(second)
            &&& twice.roster.len() == second.len()
            &&& twice == applied(state, ProtocolEventView::Users(second)).0
        }),
{
}

/// A roster snapshot keeps the server's order: the roster has one profile for
/// each name, the profile at each place is that of the name at that place, and
/// its avatar is the one that belongs to the name.
pub proof fn lemma_roster_keeps_order(state: ChatView, names: Seq<Seq<char>>)
    ensures
        ({
            let roster = applied(state, ProtocolEventView::Users(names)).0.roster;
            &&& roster.len() == names.len()
            &&& forall|i: int| 0 <= i < names.len() ==> (#[trigger] roster[i]).name == names[i]
            &&& avatars_derived(roster)
        }),
{
}

/// A roster has a name twice only where the snapshot it was made from has:
/// names that all differ give profiles whose names all differ.
pub proof fn lemma_roster_distinct(state: ChatView, names: Seq<Seq<char>>)
    requires
        names.no_duplicates(),
    ensures
        ({
            let roster = applied(state, ProtocolEventView::Users(names)).0.roster;
            forall|i: int, j: int|
                0 <= i < j < roster.len() ==> (#[trigger] roster[i]).name != (
                #[trigger] roster[j]).name
        }),
{
}

/// Every event keeps the avatars of the roster in step with the names.
pub proof fn lemma_applied_keeps_avatars(state: ChatView, event: ProtocolEventView)
    requires
        avatars_derived(state.roster),
    ensures
        avatars_derived(applied(state, event).0.roster),
{
}

/// The log only grows, and only at its end: after any event the old log is
/// the start of the new one, which is longer by one line at most. The name of
/// the session's user never changes.
pub proof fn lemma_log_grows(state: ChatView, event: ProtocolEventView)
    ensures
        ({
            let next = applied(state, event).0;
            &&& state.log.is_prefix_of(next.log)
            &&& next.log.len() <= state.log.len() + 1
            &&& next.username == state.username
        }),
{
}

/// Two chat lines applied one after the other stand in the log in that order,
/// behind what was there before.
pub proof fn lemma_log_appends(
    state: ChatView,
    first: Seq<char>,
    second: Seq<char>,
    a: ChatMessageView,
    b: ChatMessageView,
)
    requires
        payload_decoded(first) == Ok::<ChatMessageView, ChatError>(a),
        payload_decoded(second) == Ok::<ChatMessageView, ChatError>(b),
    ensures
        ({
            let once = applied(state, ProtocolEventView::Message(first)).0;
            let twice = applied(once, ProtocolEventView::Message(second)).0;
            &&& twice.log == state.log + seq![a, b]
            &&& twice.roster == state.roster
        }),
{
}

/// A `message` event with a malformed payload is dropped whole: the state
/// after it is the state before it, with no gap and no placeholder in the log,
/// so lines applied around it stand next to each other.
pub proof fn lemma_malformed_payload_dropped(
    state: ChatView,
    first: Seq<char>,
    bad: Seq<char>,
    second: Seq<char>,
    a: ChatMessageView,
    b: ChatMessageView,
)
    requires
        payload_decoded(first) == Ok::<ChatMessageView, ChatError>(a),
        payload_decoded(bad) is Err,
        payload_decoded(second) == Ok::<ChatMessageView, ChatError>(b),
    ensures
        applied(state, ProtocolEventView::Message(bad)) == (
            state,
            Err::<ChangeSignal, ChatError>(ChatError::MalformedPayload),
        ),
        ({
            let once = applied(state, ProtocolEventView::Message(first)).0;
            let dropped = applied(once, ProtocolEventView::Message(bad)).0;
            let twice = applied(dropped, ProtocolEventView::Message(second)).0;
            twice.log == state.log + seq![a, b]
        }),
{
}

/// Submitting a text never changes the state, whatever the text: the
/// machine does not add its own line to the log.
pub proof fn lemma_submit_changes_nothing(state: ChatView, text: Seq<char>)
    ensures
        updated(state, MsgView::SubmitMessage(text)).0 == state,
        updated(state, MsgView::SubmitMessage(text)).1.render == false,
        updated(state, MsgView::SubmitMessage(text)).1.dropped.is_none(),
{
}

/// The log changes only when an inbound `message` frame with a well-formed
/// payload is handled, and then by that payload's line alone.
pub proof fn lemma_log_gains_only_inbound_lines(state: ChatView, msg: MsgView)
    requires
        updated(state, msg).0.log != state.log,
    ensures
        msg is HandleMsg,
        decoded(msg->HandleMsg_0) is Ok,
        decoded(msg->HandleMsg_0)->Ok_0 is Message,
        payload_decoded(decoded(msg->HandleMsg_0)->Ok_0->Message_0) is Ok,
        updated(state, msg).0.log == state.log.push(
            payload_decoded(decoded(msg->HandleMsg_0)->Ok_0->Message_0)->Ok_0,
        ),
{
}

/// A blank text, the empty one among them, gives no outbound frame and
/// changes nothing; any other text gives exactly one frame.
pub proof fn lemma_blank_submit(state: ChatView, text: Seq<char>)
    ensures
        is_blank(Seq::<char>::empty()),
        is_blank(text) <==> updated(state, MsgView::SubmitMessage(text)).1.outbound.is_none(),
        updated(state, MsgView::SubmitMessage(text)).0 == state,
{
}

/// An inbound frame that cannot be decoded is dropped with its reason: the
/// state stays as it was, nothing is sent and nothing is drawn again.
pub proof fn lemma_dropped_frame_changes_nothing(state: ChatView, frame: Seq<char>)
    requires
        decoded(frame) is Err,
    ensures
        updated(state, MsgView::HandleMsg(frame)) == (
            state,
            EffectView { render: false, outbound: None, dropped: Some(decoded(frame)->Err_0) },
        ),
{
}

/// No message from the host changes the name of the session's user, and only
/// the theme switch changes the theme.
pub proof fn lemma_update_keeps_session(state: ChatView, msg: MsgView)
    ensures
        updated(state, msg).0.username == state.username,
        !(msg is ToggleDarkMode) ==> updated(state, msg).0.dark_mode == state.dark_mode,
        msg is ToggleDarkMode ==> updated(state, msg).0.dark_mode != state.dark_mode,
        avatars_derived(state.roster) ==> avatars_derived(updated(state, msg).0.roster),
{
}

} // verus!
