use doorknob::context::{ConversationContext, Role};

#[test]
fn fresh_context_holds_only_the_prompt() {
    let c = ConversationContext::new(String::from("be helpful"));
    assert_eq!(c.len(), 1);
    let (role, text) = c.entry_at(0);
    assert_eq!(role, Role::Developer);
    assert_eq!(text, "be helpful");
}

#[test]
fn messages_with_reads_without_mutating() {
    let c = ConversationContext::new(String::from("p"));
    let msgs = c.messages_with(&String::from("what time is it"));
    assert_eq!(msgs.len(), 2);
    assert_eq!(msgs[0].role, Role::Developer);
    assert_eq!(msgs[0].text, "p");
    assert_eq!(msgs[1].role, Role::User);
    assert_eq!(msgs[1].text, "what time is it");
    // The context itself gained nothing.
    assert_eq!(c.len(), 1);
}

#[test]
fn record_exchange_appends_user_then_assistant() {
    let mut c = ConversationContext::new(String::from("p"));
    c.record_exchange(String::from("hello"), String::from("hi"));
    assert_eq!(c.len(), 3);
    assert_eq!(c.entry_at(1), (Role::User, String::from("hello")));
    assert_eq!(c.entry_at(2), (Role::Assistant, String::from("hi")));
}

#[test]
fn two_exchanges_never_interleave() {
    // Two turns reach the context-mutation step; the lock admits them in
    // some order, here first A then B. Both pairs land whole and in that
    // order: no partial or interleaved entries.
    let mut c = ConversationContext::new(String::from("p"));
    c.record_exchange(String::from("a-in"), String::from("a-out"));
    c.record_exchange(String::from("b-in"), String::from("b-out"));
    assert_eq!(c.len(), 5);
    assert_eq!(c.entry_at(1), (Role::User, String::from("a-in")));
    assert_eq!(c.entry_at(2), (Role::Assistant, String::from("a-out")));
    assert_eq!(c.entry_at(3), (Role::User, String::from("b-in")));
    assert_eq!(c.entry_at(4), (Role::Assistant, String::from("b-out")));
}

#[test]
fn failed_turn_leaves_the_context_unmodified() {
    // A turn whose generation fails records nothing: only the completed
    // turn's pair appears.
    let mut c = ConversationContext::new(String::from("p"));
    let _ = c.messages_with(&String::from("doomed turn"));
    c.record_exchange(String::from("good turn"), String::from("reply"));
    assert_eq!(c.len(), 3);
    assert_eq!(c.entry_at(1), (Role::User, String::from("good turn")));
}
