//! What a whole run of inbound events leaves behind: the roster of the latest
//! snapshot, and every chat line that came, in the order of arrival.

use crate::chat::{applied, avatars_derived, roster_of, ChatView, UserProfileView};
use crate::codec::{payload_decoded, ChatMessageView, ProtocolEventView};
use vstd::prelude::*;

verus! {

/// The state after the events `events` were applied to `state`, the first
/// first. An event that is dropped leaves the state as it was and the run goes
/// on.
pub open spec fn replayed(state: ChatView, events: Seq<ProtocolEventView>) -> ChatView
    decreases events.len(),
{
    if events.len() == 0 {
        state
    } else {
        applied(replayed(state, events.drop_last()), events.last()).0
    }
}

/// The chat lines that `events` carry, in order: one for each `message` event
/// whose payload is well formed.
pub open spec fn lines_carried(events: Seq<ProtocolEventView>) -> Seq<ChatMessageView>
    decreases events.len(),
{
    if events.len() == 0 {
        Seq::empty()
    } else {
        let before = lines_carried(events.drop_last());
        match events.last() {
            ProtocolEventView::Message(payload) => match payload_decoded(payload) {
                Ok(line) => before.push(line),
                Err(_) => before,
            },
            _ => before,
        }
    }
}

/// The roster of the last `users` event among `events`, or `fallback` where
/// there is none.
pub open spec fn latest_roster(
    fallback: Seq<UserProfileView>,
    events: Seq<ProtocolEventView>,
) -> Seq<UserProfileView>
    decreases events.len(),
{
    if events.len() == 0 {
        fallback
    } else {
        match events.last() {
            ProtocolEventView::Users(names) => roster_of(names),
            _ => latest_roster(fallback, events.drop_last()),
        }
    }
}

/// After any run of events the roster is that of the latest snapshot alone,
/// the log is the old log followed by every line that came, in the order of
/// arrival, and nothing else has changed.
pub proof fn lemma_replayed(state: ChatView, events: Seq<ProtocolEventView>)
    ensures
        replayed(state, events).roster == latest_roster(state.roster, events),
        replayed(state, events).log == state.log + lines_carried(events),
        replayed(state, events).username == state.username,
        replayed(state, events).dark_mode == state.dark_mode,
        avatars_derived(state.roster) ==> avatars_derived(replayed(state, events).roster),
    decreases events.len(),
{
    if events.len() > 0 {
        lemma_replayed(state, events.drop_last());
    }
}

/// Applying one run of events and then another is applying the two runs
/// joined: the state holds all that matters of what came before.
pub proof fn lemma_replayed_in_parts(
    state: ChatView,
    first: Seq<ProtocolEventView>,
    second: Seq<ProtocolEventView>,
)
    ensures
        replayed(replayed(state, first), second) == replayed(state, first + second),
    decreases second.len(),
{
    if second.len() == 0 {
        assert(first + second =~= first);
    } else {
        lemma_replayed_in_parts(state, first, second.drop_last());
        assert((first + second).drop_last() =~= first + second.drop_last());
        assert((first + second).last() == second.last());
    }
}

} // verus!
