use chat_view::chat_data::ChatData;
use chat_view::identity::{presentation_platform, Identity, IdentityPlatform, Platform};
use chat_view::state::{Chat, ConversationType, State};

fn ident(did: u64, name: &str, status: Option<&str>, platform: IdentityPlatform) -> Identity {
    Identity {
        did,
        username: name.to_string(),
        status_message: status.map(|s| s.to_string()),
        profile_picture: format!("pic-{}", did),
        platform,
    }
}

fn direct_chat(id: u64, participants: Vec<u64>) -> Chat {
    Chat {
        id,
        conversation_type: ConversationType::Direct,
        participants,
    }
}

#[test]
fn uninitialized_state_projects_nothing() {
    let own = ident(1, "Self", None, IdentityPlatform::Desktop);
    let bob = ident(2, "Bob", Some("Away"), IdentityPlatform::Mobile);
    let state = State {
        initialized: false,
        chats: vec![direct_chat(10, vec![1, 2])],
        identities: vec![own.clone(), bob],
        own_identity: own,
        active_chat_id: Some(10),
        favorites: vec![10],
    };
    assert!(ChatData::get(&state).is_none());
}

#[test]
fn no_active_conversation_projects_nothing() {
    let own = ident(1, "Self", None, IdentityPlatform::Desktop);
    let state = State {
        initialized: true,
        chats: vec![direct_chat(10, vec![1])],
        identities: vec![own.clone()],
        own_identity: own,
        active_chat_id: None,
        favorites: vec![],
    };
    assert!(ChatData::get(&state).is_none());
}

#[test]
fn unknown_active_id_projects_nothing() {
    let own = ident(1, "Self", None, IdentityPlatform::Desktop);
    let state = State {
        initialized: true,
        chats: vec![direct_chat(10, vec![1])],
        identities: vec![own.clone()],
        own_identity: own,
        active_chat_id: Some(99),
        favorites: vec![],
    };
    assert!(ChatData::get(&state).is_none());
}

#[test]
fn direct_conversation_snapshot() {
    let own = ident(1, "Self", None, IdentityPlatform::Desktop);
    let bob = ident(2, "Bob", Some("Away"), IdentityPlatform::Mobile);
    let state = State {
        initialized: true,
        chats: vec![direct_chat(10, vec![1, 2])],
        identities: vec![own.clone(), bob],
        own_identity: own,
        active_chat_id: Some(10),
        favorites: vec![10],
    };
    let d = ChatData::get(&state).expect("state is ready, so a snapshot is owed");
    assert_eq!(d.active_chat.id, 10);
    assert_eq!(d.my_id.username, "Self");
    assert_eq!(d.other_participants.len(), 1);
    assert_eq!(d.other_participants[0].username, "Bob");
    assert_eq!(d.active_participant.username, "Bob");
    assert_eq!(d.subtext, "Away");
    assert!(d.is_favorite);
    assert_eq!(d.first_image, "pic-2");
    assert_eq!(d.other_participants_names, "Bob");
    assert_eq!(d.platform, Platform::Mobile);
}

#[test]
fn favorite_flag_follows_store() {
    let own = ident(1, "Self", None, IdentityPlatform::Desktop);
    let bob = ident(2, "Bob", None, IdentityPlatform::Desktop);
    let state = State {
        initialized: true,
        chats: vec![direct_chat(10, vec![1, 2])],
        identities: vec![own.clone(), bob],
        own_identity: own,
        active_chat_id: Some(10),
        favorites: vec![7, 8],
    };
    let d = ChatData::get(&state).expect("snapshot");
    assert!(!d.is_favorite);
}

#[test]
fn direct_conversation_without_status_has_empty_subtext() {
    let own = ident(1, "Self", None, IdentityPlatform::Desktop);
    let bob = ident(2, "Bob", None, IdentityPlatform::Desktop);
    let state = State {
        initialized: true,
        chats: vec![direct_chat(10, vec![1, 2])],
        identities: vec![own.clone(), bob],
        own_identity: own,
        active_chat_id: Some(10),
        favorites: vec![],
    };
    let d = ChatData::get(&state).expect("snapshot");
    assert_eq!(d.subtext, "");
}

#[test]
fn group_conversation_snapshot() {
    let own = ident(1, "Self", Some("Here"), IdentityPlatform::Desktop);
    let bob = ident(2, "Bob", Some("Away"), IdentityPlatform::Mobile);
    let carol = ident(3, "Carol", None, IdentityPlatform::Web);
    let chat = Chat {
        id: 20,
        conversation_type: ConversationType::Group,
        participants: vec![1, 2, 3],
    };
    let state = State {
        initialized: true,
        chats: vec![chat],
        identities: vec![own.clone(), bob, carol],
        own_identity: own,
        active_chat_id: Some(20),
        favorites: vec![],
    };
    let d = ChatData::get(&state).expect("snapshot");
    assert_eq!(d.subtext, "");
    assert_eq!(d.other_participants.len(), 2);
    assert_eq!(d.other_participants[0].username, "Bob");
    assert_eq!(d.other_participants[1].username, "Carol");
    assert_eq!(d.other_participants_names, "Bob, Carol");
    assert_eq!(d.active_participant.username, "Bob");
}

#[test]
fn own_identity_never_among_other_participants() {
    let own = ident(1, "Self", None, IdentityPlatform::Desktop);
    let bob = ident(2, "Bob", None, IdentityPlatform::Desktop);
    let chat = Chat {
        id: 20,
        conversation_type: ConversationType::Group,
        participants: vec![1, 2, 1, 1],
    };
    let state = State {
        initialized: true,
        chats: vec![chat],
        identities: vec![own.clone(), bob],
        own_identity: own,
        active_chat_id: Some(20),
        favorites: vec![],
    };
    let d = ChatData::get(&state).expect("snapshot");
    assert!(d.other_participants.iter().all(|p| p.did != d.my_id.did));
    assert_eq!(d.other_participants.len(), 1);
}

#[test]
fn self_conversation_falls_back_to_own_identity() {
    let own = ident(1, "Self", Some("Me"), IdentityPlatform::Desktop);
    let state = State {
        initialized: true,
        chats: vec![direct_chat(10, vec![1])],
        identities: vec![own.clone()],
        own_identity: own,
        active_chat_id: Some(10),
        favorites: vec![],
    };
    let d = ChatData::get(&state).expect("a self-conversation still projects");
    assert!(d.other_participants.is_empty());
    assert_eq!(d.active_participant.username, "Self");
    assert_eq!(d.active_participant.did, 1);
    assert_eq!(d.other_participants_names, "");
    assert_eq!(d.subtext, "Me");
}

#[test]
fn unknown_participant_ids_are_skipped() {
    let own = ident(1, "Self", None, IdentityPlatform::Desktop);
    let bob = ident(2, "Bob", None, IdentityPlatform::Desktop);
    let chat = Chat {
        id: 20,
        conversation_type: ConversationType::Group,
        participants: vec![1, 5, 2, 6],
    };
    let state = State {
        initialized: true,
        chats: vec![chat],
        identities: vec![own.clone(), bob],
        own_identity: own,
        active_chat_id: Some(20),
        favorites: vec![],
    };
    let d = ChatData::get(&state).expect("snapshot");
    assert_eq!(d.other_participants.len(), 1);
    assert_eq!(d.other_participants[0].username, "Bob");
}

#[test]
fn join_usernames_matches_separator_policy() {
    let alice = ident(4, "Alice", None, IdentityPlatform::Desktop);
    let bob = ident(5, "Bob", None, IdentityPlatform::Desktop);
    let none: Vec<Identity> = vec![];
    assert_eq!(State::join_usernames(&none), "");
    assert_eq!(State::join_usernames(&vec![alice.clone()]), "Alice");
    assert_eq!(State::join_usernames(&vec![alice, bob]), "Alice, Bob");
}

#[test]
fn snapshots_from_identical_state_never_compare_equal() {
    let own = ident(1, "Self", None, IdentityPlatform::Desktop);
    let bob = ident(2, "Bob", None, IdentityPlatform::Desktop);
    let state = State {
        initialized: true,
        chats: vec![direct_chat(10, vec![1, 2])],
        identities: vec![own.clone(), bob],
        own_identity: own,
        active_chat_id: Some(10),
        favorites: vec![],
    };
    let d1 = ChatData::get(&state).expect("snapshot");
    let d2 = ChatData::get(&state).expect("snapshot");
    assert!(!(d1 == d2));
    assert!(!(d2 == d1));
    assert!(!(d1 == d1));
}

#[test]
fn platform_mapping_is_total() {
    assert_eq!(
        presentation_platform(IdentityPlatform::Desktop),
        Platform::Desktop
    );
    assert_eq!(
        presentation_platform(IdentityPlatform::Mobile),
        Platform::Mobile
    );
    assert_eq!(presentation_platform(IdentityPlatform::Web), Platform::Web);
    assert_eq!(
        presentation_platform(IdentityPlatform::Unknown),
        Platform::Unknown
    );
}
