//! The render-ready snapshot of the active conversation, and the
//! projection that derives it from the shared state.

use vstd::prelude::*;

use crate::identity::{spec_presentation_platform, Identity, IdentityView, Platform};
use crate::state::{
    lemma_join_usernames_cases, lemma_participants_all_same_id, lemma_remove_self_excludes,
    lemma_remove_self_of_all_self, spec_active_chat, spec_join_usernames, spec_participants,
    spec_remove_self, Chat, ChatView, ConversationType, State, StateView,
};
use vstd::std_specs::cmp::PartialEqSpec;

verus! {

/// A fully-materialized, owned view of the active conversation for one
/// render: the resolved conversation, the caller's identity, the other
/// participants, the participant chosen for single-peer display, and the
/// derived display fields.
pub struct ChatData {
    pub active_chat: Chat,
    pub my_id: Identity,
    pub other_participants: Vec<Identity>,
    pub active_participant: Identity,
    pub subtext: String,
    pub is_favorite: bool,
    pub first_image: String,
    pub other_participants_names: String,
    pub platform: Platform,
}

/// The mathematical value of a [`ChatData`].
#[verifier::ext_equal]
pub struct ChatDataView {
    pub active_chat: ChatView,
    pub my_id: IdentityView,
    pub other_participants: Seq<IdentityView>,
    pub active_participant: IdentityView,
    pub subtext: Seq<char>,
    pub is_favorite: bool,
    pub first_image: Seq<char>,
    pub other_participants_names: Seq<char>,
    pub platform: Platform,
}

impl View for ChatData {
    type V = ChatDataView;

    open spec fn view(&self) -> ChatDataView {
        ChatDataView {
            active_chat: self.active_chat@,
            my_id: self.my_id@,
            other_participants: crate::state::views_of_identities(self.other_participants@),
            active_participant: self.active_participant@,
            subtext: self.subtext@,
            is_favorite: self.is_favorite,
            first_image: self.first_image@,
            other_participants_names: self.other_participants_names@,
            platform: self.platform,
        }
    }
}

/// Snapshot comparison is intentionally never structural: the rendering
/// layer's memoization must treat every projection as changed, so two
/// snapshots compare as different whatever their fields hold.
impl PartialEq for ChatData {
    fn eq(&self, _other: &ChatData) -> bool {
        false
    }
}

impl vstd::std_specs::cmp::PartialEqSpecImpl for ChatData {
    open spec fn obeys_eq_spec() -> bool {
        true
    }

    open spec fn eq_spec(&self, _other: &ChatData) -> bool {
        false
    }
}

/// The participant used for single-peer display: the first of the other
/// participants, or the caller's own identity when there are none.
pub open spec fn spec_primary_participant(
    others: Seq<IdentityView>,
    own: IdentityView,
) -> IdentityView {
    if others.len() > 0 {
        others[0]
    } else {
        own
    }
}

/// The status line under the conversation title: the primary
/// participant's status message for a direct conversation (empty when it
/// has none), and the empty string for every other conversation kind.
pub open spec fn spec_subtext(kind: ConversationType, primary: IdentityView) -> Seq<char> {
    match kind {
        ConversationType::Direct => match primary.status_message {
            Some(m) => m,
            None => Seq::empty(),
        },
        _ => Seq::empty(),
    }
}

/// The snapshot derived for one resolved conversation: membership minus
/// the caller, the primary participant, and every display field.
pub open spec fn spec_snapshot(sv: StateView, c: ChatView) -> ChatDataView {
    let others = spec_remove_self(
        sv.own_identity.did,
        spec_participants(sv.identities, c.participants),
    );
    let primary = spec_primary_participant(others, sv.own_identity);
    ChatDataView {
        active_chat: c,
        my_id: sv.own_identity,
        other_participants: others,
        active_participant: primary,
        subtext: spec_subtext(c.conversation_type, primary),
        is_favorite: sv.favorites.contains(c.id),
        first_image: primary.profile_picture,
        other_participants_names: spec_join_usernames(others),
        platform: spec_presentation_platform(primary.platform),
    }
}

/// The whole projection: absence while the state is uninitialized or no
/// conversation is active, and otherwise the snapshot of the active
/// conversation.
pub open spec fn spec_project(sv: StateView) -> Option<ChatDataView> {
    if !sv.initialized {
        None
    } else {
        match spec_active_chat(sv) {
            Some(c) => Some(spec_snapshot(sv, c)),
            None => None,
        }
    }
}

impl ChatData {
    /// Projects the shared state onto a snapshot of the active
    /// conversation. Returns absence while the state is uninitialized or
    /// no conversation is active; otherwise every field of the snapshot
    /// is the one [`spec_project`] derives. The state is only read.
    pub fn get(state: &State) -> (r: Option<ChatData>)
        ensures
            r matches Some(d) ==> spec_project(state@) == Some(d@),
            r is None ==> spec_project(state@) is None,
    {
        if !state.initialized {
            return None;
        }
        let active_chat = match state.get_active_chat() {
            Some(c) => c,
            None => {
                return None;
            },
        };
        let participants = state.chat_participants(&active_chat);
        let other_participants = state.remove_self(&participants);
        let active_participant = if other_participants.len() > 0 {
            let p = &other_participants[0];
            p.clone()
        } else {
            state.get_own_identity()
        };
        let subtext = match active_chat.conversation_type {
            ConversationType::Direct => match active_participant.status_message() {
                Some(m) => m,
                None => String::new(),
            },
            _ => String::new(),
        };
        let is_favorite = state.is_favorite(&active_chat);
        let first_image = active_participant.profile_picture();
        let other_participants_names = State::join_usernames(&other_participants);
        let platform = crate::identity::presentation_platform(active_participant.platform());

        let data = ChatData {
            active_chat,
            other_participants,
            my_id: state.get_own_identity(),
            active_participant,
            subtext,
            is_favorite,
            first_image,
            other_participants_names,
            platform,
        };
        proof {
            let sv = state@;
            let c = spec_active_chat(sv)->Some_0;
            assert(data@ =~= spec_snapshot(sv, c));
        }
        Some(data)
    }
}

/// While the state is uninitialized the projection is absent, whatever
/// conversation data the state holds.
pub proof fn lemma_project_requires_initialized(sv: StateView)
    requires
        !sv.initialized,
    ensures
        spec_project(sv) is None,
{
}

/// With no active conversation the projection is absent.
pub proof fn lemma_project_requires_active_chat(sv: StateView)
    requires
        spec_active_chat(sv) is None,
    ensures
        spec_project(sv) is None,
{
}

/// A direct conversation whose primary participant carries a status
/// message shows that message as subtext; every other conversation kind
/// shows the empty subtext.
pub proof fn lemma_subtext_policy(sv: StateView, c: ChatView)
    ensures
        ({
            let d = spec_snapshot(sv, c);
            &&& (c.conversation_type == ConversationType::Direct ==> (
            d.active_participant.status_message matches Some(m) ==> d.subtext == m))
            &&& (c.conversation_type != ConversationType::Direct ==> d.subtext
                == Seq::<char>::empty())
        }),
{
}

/// The caller's own identity never appears among a snapshot's other
/// participants: every record there carries a different id, so none is
/// the caller's record.
pub proof fn lemma_own_identity_not_among_others(sv: StateView, c: ChatView)
    ensures
        ({
            let d = spec_snapshot(sv, c);
            &&& forall|i: int|
                0 <= i < d.other_participants.len() ==> d.other_participants[i].did != d.my_id.did
            &&& !d.other_participants.contains(d.my_id)
        }),
{
    lemma_remove_self_excludes(
        sv.own_identity.did,
        spec_participants(sv.identities, c.participants),
    );
}

/// A conversation whose membership names only the caller projects no
/// other participants, falls back to the caller as primary participant,
/// and joins no usernames.
pub proof fn lemma_self_conversation_falls_back(sv: StateView, c: ChatView)
    requires
        forall|i: int| 0 <= i < c.participants.len() ==> c.participants[i] == sv.own_identity.did,
    ensures
        spec_snapshot(sv, c).other_participants == Seq::<IdentityView>::empty(),
        spec_snapshot(sv, c).active_participant == sv.own_identity,
        spec_snapshot(sv, c).other_participants_names == Seq::<char>::empty(),
{
    let resolved = spec_participants(sv.identities, c.participants);
    lemma_participants_all_same_id(sv.identities, c.participants, sv.own_identity.did);
    lemma_remove_self_of_all_self(sv.own_identity.did, resolved);
    lemma_join_usernames_cases(spec_remove_self(sv.own_identity.did, resolved));
}

/// Two snapshots never compare as equal, whatever their fields hold: the
/// rendering layer's memoization must treat every projection as changed.
pub proof fn lemma_snapshots_never_equal(a: &ChatData, b: &ChatData)
    ensures
        !a.eq_spec(b),
{
}

} // verus!
