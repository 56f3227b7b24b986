//! The shared application state, read-only from the projection layer's
//! perspective: conversations, the identity store, favorites, and the
//! derived queries the projector needs.

use vstd::prelude::*;

use crate::identity::{Identity, IdentityView};

verus! {

/// Kind of a conversation: a two-party direct chat or a group.
#[derive(Clone, Copy, PartialEq, Eq, Structural, Debug)]
pub enum ConversationType {
    Direct,
    Group,
}

/// A conversation: an id, a kind, and membership as an ordered list of
/// participant ids into the identity store.
pub struct Chat {
    pub id: u64,
    pub conversation_type: ConversationType,
    pub participants: Vec<u64>,
}

/// The mathematical value of a [`Chat`].
#[verifier::ext_equal]
pub struct ChatView {
    pub id: u64,
    pub conversation_type: ConversationType,
    pub participants: Seq<u64>,
}

impl View for Chat {
    type V = ChatView;

    open spec fn view(&self) -> ChatView {
        ChatView {
            id: self.id,
            conversation_type: self.conversation_type,
            participants: self.participants@,
        }
    }
}

impl Clone for Chat {
    fn clone(&self) -> (r: Self)
        ensures
            r@ == self@,
    {
        let participants = clone_ids(&self.participants);
        Chat { id: self.id, conversation_type: self.conversation_type, participants }
    }
}

/// Copies a list of participant ids.
fn clone_ids(ids: &Vec<u64>) -> (r: Vec<u64>)
    ensures
        r@ == ids@,
{
    let mut out: Vec<u64> = Vec::new();
    let mut i: usize = 0;
    while i < ids.len()
        invariant
            i <= ids.len(),
            out@ == ids@.take(i as int),
        decreases ids.len() - i,
    {
        out.push(ids[i]);
        proof {
            assert(out@ =~= ids@.take(i + 1 as int));
        }
        i = i + 1;
    }
    proof {
        assert(ids@.take(ids@.len() as int) =~= ids@);
    }
    out
}

/// The character-sequence views of a list of identities, in order.
pub open spec fn views_of_identities(ps: Seq<Identity>) -> Seq<IdentityView> {
    ps.map_values(|p: Identity| p@)
}

/// The whole shared state: a readiness flag, every known conversation,
/// the identity store, the caller's own identity, the active-conversation
/// selection, and the favorite conversation ids.
pub struct State {
    pub initialized: bool,
    pub chats: Vec<Chat>,
    pub identities: Vec<Identity>,
    pub own_identity: Identity,
    pub active_chat_id: Option<u64>,
    pub favorites: Vec<u64>,
}

/// The mathematical value of a [`State`].
#[verifier::ext_equal]
pub struct StateView {
    pub initialized: bool,
    pub chats: Seq<ChatView>,
    pub identities: Seq<IdentityView>,
    pub own_identity: IdentityView,
    pub active_chat_id: Option<u64>,
    pub favorites: Seq<u64>,
}

impl View for State {
    type V = StateView;

    open spec fn view(&self) -> StateView {
        StateView {
            initialized: self.initialized,
            chats: self.chats@.map_values(|c: Chat| c@),
            identities: views_of_identities(self.identities@),
            own_identity: self.own_identity@,
            active_chat_id: self.active_chat_id,
            favorites: self.favorites@,
        }
    }
}

/// The first conversation in `chats` with the given id, if any.
pub open spec fn spec_find_chat(chats: Seq<ChatView>, id: u64) -> Option<ChatView>
    decreases chats.len(),
{
    if chats.len() == 0 {
        None
    } else if chats[0].id == id {
        Some(chats[0])
    } else {
        spec_find_chat(chats.drop_first(), id)
    }
}

/// The conversation currently selected as active, if any.
pub open spec fn spec_active_chat(sv: StateView) -> Option<ChatView> {
    match sv.active_chat_id {
        Some(id) => spec_find_chat(sv.chats, id),
        None => None,
    }
}

/// The first identity in the store with the given id, if any.
pub open spec fn spec_find_identity(ids: Seq<IdentityView>, did: u64) -> Option<IdentityView>
    decreases ids.len(),
{
    if ids.len() == 0 {
        None
    } else if ids[0].did == did {
        Some(ids[0])
    } else {
        spec_find_identity(ids.drop_first(), did)
    }
}

/// The identities behind a membership list, resolved against the identity
/// store in membership order; ids the store does not know are skipped.
pub open spec fn spec_participants(ids: Seq<IdentityView>, dids: Seq<u64>) -> Seq<IdentityView>
    decreases dids.len(),
{
    if dids.len() == 0 {
        Seq::empty()
    } else {
        let init = spec_participants(ids, dids.drop_last());
        match spec_find_identity(ids, dids.last()) {
            Some(p) => init.push(p),
            None => init,
        }
    }
}

/// A participant list with every record carrying the caller's own id
/// removed, original order preserved.
pub open spec fn spec_remove_self(own_did: u64, ps: Seq<IdentityView>) -> Seq<IdentityView>
    decreases ps.len(),
{
    if ps.len() == 0 {
        Seq::empty()
    } else {
        let init = spec_remove_self(own_did, ps.drop_last());
        if ps.last().did == own_did {
            init
        } else {
            init.push(ps.last())
        }
    }
}

/// The separator the store's username join places between names.
pub open spec fn spec_username_separator() -> Seq<char> {
    ", "@
}

/// The usernames of a participant list joined into one string: empty for
/// an empty list, a lone username unchanged, and the separator between
/// each adjacent pair.
pub open spec fn spec_join_usernames(ps: Seq<IdentityView>) -> Seq<char>
    decreases ps.len(),
{
    if ps.len() == 0 {
        Seq::empty()
    } else if ps.len() == 1 {
        ps[0].username
    } else {
        spec_join_usernames(ps.drop_last()) + spec_username_separator() + ps.last().username
    }
}

/// An identity the store hands back for an id carries exactly that id.
pub proof fn lemma_find_identity_did(ids: Seq<IdentityView>, did: u64)
    ensures
        spec_find_identity(ids, did) matches Some(p) ==> p.did == did,
    decreases ids.len(),
{
    if ids.len() > 0 && ids[0].did != did {
        lemma_find_identity_did(ids.drop_first(), did);
    }
}

/// No record in a self-removed participant list carries the removed id.
pub proof fn lemma_remove_self_excludes(own_did: u64, ps: Seq<IdentityView>)
    ensures
        forall|i: int|
            0 <= i < spec_remove_self(own_did, ps).len() ==> spec_remove_self(own_did, ps)[i].did
                != own_did,
    decreases ps.len(),
{
    if ps.len() > 0 {
        lemma_remove_self_excludes(own_did, ps.drop_last());
    }
}

/// A membership list naming only one id resolves to identities that all
/// carry that id.
pub proof fn lemma_participants_all_same_id(ids: Seq<IdentityView>, dids: Seq<u64>, did: u64)
    requires
        forall|i: int| 0 <= i < dids.len() ==> dids[i] == did,
    ensures
        forall|i: int|
            0 <= i < spec_participants(ids, dids).len() ==> spec_participants(ids, dids)[i].did
                == did,
    decreases dids.len(),
{
    if dids.len() > 0 {
        lemma_participants_all_same_id(ids, dids.drop_last(), did);
        lemma_find_identity_did(ids, dids.last());
    }
}

/// Removing an id from a list whose records all carry it leaves nothing.
pub proof fn lemma_remove_self_of_all_self(own_did: u64, ps: Seq<IdentityView>)
    requires
        forall|i: int| 0 <= i < ps.len() ==> ps[i].did == own_did,
    ensures
        spec_remove_self(own_did, ps) == Seq::<IdentityView>::empty(),
    decreases ps.len(),
{
    if ps.len() > 0 {
        lemma_remove_self_of_all_self(own_did, ps.drop_last());
    }
}

/// The username join is empty for no participants, the lone username for
/// one, and the two usernames around the separator for two, in list
/// order.
pub proof fn lemma_join_usernames_cases(ps: Seq<IdentityView>)
    ensures
        ps.len() == 0 ==> spec_join_usernames(ps) == Seq::<char>::empty(),
        ps.len() == 1 ==> spec_join_usernames(ps) == ps[0].username,
        ps.len() == 2 ==> spec_join_usernames(ps) == ps[0].username + spec_username_separator()
            + ps[1].username,
{
    if ps.len() == 2 {
        assert(ps.drop_last().len() == 1);
        assert(ps.drop_last()[0] == ps[0]);
        assert(spec_join_usernames(ps.drop_last()) == ps[0].username);
        assert(ps.last() == ps[1]);
    }
}

/// Searching past a prefix without the wanted id finds the same
/// conversation as searching the whole list.
proof fn lemma_find_chat_past_prefix(chats: Seq<ChatView>, id: u64, i: int)
    requires
        0 <= i <= chats.len(),
        forall|j: int| 0 <= j < i ==> chats[j].id != id,
    ensures
        spec_find_chat(chats, id) == spec_find_chat(chats.skip(i), id),
    decreases i,
{
    if i > 0 {
        lemma_find_chat_past_prefix(chats, id, i - 1);
        assert(chats.skip(i - 1).drop_first() =~= chats.skip(i));
        assert(chats.skip(i - 1)[0] == chats[i - 1]);
    } else {
        assert(chats.skip(0) =~= chats);
    }
}

/// Searching past a prefix without the wanted id finds the same identity
/// as searching the whole store.
proof fn lemma_find_identity_past_prefix(ids: Seq<IdentityView>, did: u64, i: int)
    requires
        0 <= i <= ids.len(),
        forall|j: int| 0 <= j < i ==> ids[j].did != did,
    ensures
        spec_find_identity(ids, did) == spec_find_identity(ids.skip(i), did),
    decreases i,
{
    if i > 0 {
        lemma_find_identity_past_prefix(ids, did, i - 1);
        assert(ids.skip(i - 1).drop_first() =~= ids.skip(i));
        assert(ids.skip(i - 1)[0] == ids[i - 1]);
    } else {
        assert(ids.skip(0) =~= ids);
    }
}

impl State {
    /// The conversation currently selected as active, copied out of the
    /// state, or absence when none is selected or the id is unknown.
    pub fn get_active_chat(&self) -> (r: Option<Chat>)
        ensures
            r matches Some(c) ==> spec_active_chat(self@) == Some(c@),
            r is None ==> spec_active_chat(self@) is None,
    {
        let id = match self.active_chat_id {
            Some(id) => id,
            None => {
                return None;
            },
        };
        let ghost chats = self@.chats;
        let mut i: usize = 0;
        while i < self.chats.len()
            invariant
                i <= self.chats.len(),
                chats == self@.chats,
                chats.len() == self.chats.len(),
                self.active_chat_id == Some(id),
                forall|j: int| 0 <= j < i ==> chats[j].id != id,
            decreases self.chats.len() - i,
    {
            if self.chats[i].id == id {
                proof {
                    lemma_find_chat_past_prefix(chats, id, i as int);
                    assert(chats.skip(i as int)[0] == chats[i as int]);
                }
                return Some(self.chats[i].clone());
            }
            i = i + 1;
        }
        proof {
            lemma_find_chat_past_prefix(chats, id, chats.len() as int);
            assert(chats.skip(chats.len() as int) =~= Seq::<ChatView>::empty());
        }
        None
    }

    /// The first identity in the store with the given id, copied out, or
    /// absence when the store does not know the id.
    fn find_identity(&self, did: u64) -> (r: Option<Identity>)
        ensures
            r matches Some(p) ==> spec_find_identity(self@.identities, did) == Some(p@),
            r is None ==> spec_find_identity(self@.identities, did) is None,
    {
        let ghost ids = self@.identities;
        let mut i: usize = 0;
        while i < self.identities.len()
            invariant
                i <= self.identities.len(),
                ids == self@.identities,
                ids.len() == self.identities.len(),
                forall|j: int| 0 <= j < i ==> ids[j].did != did,
            decreases self.identities.len() - i,
        {
            if self.identities[i].did == did {
                proof {
                    lemma_find_identity_past_prefix(ids, did, i as int);
                    assert(ids.skip(i as int)[0] == ids[i as int]);
                }
                let p = &self.identities[i];
                return Some(p.clone());
            }
            i = i + 1;
        }
        proof {
            lemma_find_identity_past_prefix(ids, did, ids.len() as int);
            assert(ids.skip(ids.len() as int) =~= Seq::<IdentityView>::empty());
        }
        None
    }

    /// The identities behind a conversation's membership, resolved
    /// against the identity store in membership order.
    pub fn chat_participants(&self, chat: &Chat) -> (r: Vec<Identity>)
        ensures
            views_of_identities(r@) == spec_participants(self@.identities, chat@.participants),
    {
        let ghost dids = chat@.participants;
        let mut out: Vec<Identity> = Vec::new();
        let mut i: usize = 0;
        while i < chat.participants.len()
            invariant
                i <= chat.participants.len(),
                dids == chat@.participants,
                dids.len() == chat.participants.len(),
                views_of_identities(out@) == spec_participants(self@.identities, dids.take(i as int)),
            decreases chat.participants.len() - i,
        {
            let ghost prev = out@;
            match self.find_identity(chat.participants[i]) {
                Some(p) => {
                    proof {
                        assert(views_of_identities(prev.push(p)) =~= views_of_identities(prev).push(p@));
                    }
                    out.push(p);
                },
                None => {},
            }
            proof {
                assert(dids.take(i + 1 as int).drop_last() =~= dids.take(i as int));
                assert(dids.take(i + 1 as int).last() == dids[i as int]);
            }
            i = i + 1;
        }
        proof {
            assert(dids.take(dids.len() as int) =~= dids);
        }
        out
    }

    /// A copy of a participant list with the caller's own identity
    /// removed, original order preserved.
    pub fn remove_self(&self, participants: &Vec<Identity>) -> (r: Vec<Identity>)
        ensures
            views_of_identities(r@) == spec_remove_self(
                self@.own_identity.did,
                views_of_identities(participants@),
            ),
    {
        let ghost ps = views_of_identities(participants@);
        let own_did = self.own_identity.did;
        let mut out: Vec<Identity> = Vec::new();
        let mut i: usize = 0;
        while i < participants.len()
            invariant
                i <= participants.len(),
                own_did == self@.own_identity.did,
                ps == views_of_identities(participants@),
                ps.len() == participants.len(),
                views_of_identities(out@) == spec_remove_self(own_did, ps.take(i as int)),
            decreases participants.len() - i,
        {
            let ghost prev = out@;
            if participants[i].did != own_did {
                let p = &participants[i];
                let copied = p.clone();
                proof {
                    assert(views_of_identities(prev.push(copied)) =~= views_of_identities(
                        prev,
                    ).push(copied@));
                }
                out.push(copied);
            }
            proof {
                assert(ps.take(i + 1 as int).drop_last() =~= ps.take(i as int));
                assert(ps.take(i + 1 as int).last() == ps[i as int]);
            }
            i = i + 1;
        }
        proof {
            assert(ps.take(ps.len() as int) =~= ps);
        }
        out
    }

    /// A copy of the caller's own identity.
    pub fn get_own_identity(&self) -> (r: Identity)
        ensures
            r@ == self@.own_identity,
    {
        self.own_identity.clone()
    }

    /// Whether the user has marked the conversation as a favorite.
    pub fn is_favorite(&self, chat: &Chat) -> (r: bool)
        ensures
            r == self@.favorites.contains(chat@.id),
    {
        let mut i: usize = 0;
        while i < self.favorites.len()
            invariant
                i <= self.favorites.len(),
                forall|j: int| 0 <= j < i ==> self@.favorites[j] != chat@.id,
            decreases self.favorites.len() - i,
        {
            if self.favorites[i] == chat.id {
                assert(self@.favorites[i as int] == chat@.id);
                return true;
            }
            i = i + 1;
        }
        false
    }

    /// The participants' usernames joined into one display string, with
    /// the store's fixed separator between each adjacent pair.
    pub fn join_usernames(identities: &Vec<Identity>) -> (r: String)
        ensures
            r@ == spec_join_usernames(views_of_identities(identities@)),
    {
        let ghost vs = views_of_identities(identities@);
        let mut out = String::new();
        let mut i: usize = 0;
        while i < identities.len()
            invariant
                i <= identities.len(),
                vs == views_of_identities(identities@),
                vs.len() == identities.len(),
                out@ == spec_join_usernames(vs.take(i as int)),
            decreases identities.len() - i,
        {
            let ghost before = out@;
            if i > 0 {
                out.append(", ");
            }
            out.append(identities[i].username.as_str());
            proof {
                assert(vs.take(i + 1 as int).drop_last() =~= vs.take(i as int));
                assert(vs.take(i + 1 as int).last() == vs[i as int]);
                if i == 0 {
                    assert(Seq::<char>::empty() + vs[0].username =~= vs[0].username);
                } else {
                    assert(before + ", "@ + vs[i as int].username == spec_join_usernames(
                        vs.take(i + 1 as int),
                    ));
                }
            }
            i = i + 1;
        }
        proof {
            assert(vs.take(vs.len() as int) =~= vs);
        }
        out
    }
}

} // verus!
