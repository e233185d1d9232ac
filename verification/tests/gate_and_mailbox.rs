use support_core::gate::Gate;
use support_core::mailbox::Mailbox;

#[test]
fn gate_grants_only_on_transition() {
    let mut g = Gate::new();
    assert!(!g.is_held());
    assert!(g.acquire());
    assert!(g.is_held());
    assert!(!g.acquire());
    assert!(!g.acquire());
    g.release();
    assert!(!g.is_held());
    assert!(g.acquire());
}

#[test]
fn gate_release_is_idempotent() {
    let mut g = Gate::new();
    g.release();
    assert!(!g.is_held());
    assert!(g.acquire());
    g.release();
    g.release();
    assert!(!g.is_held());
    assert!(g.acquire());
}

#[test]
fn mailbox_delivers_once() {
    let mut m = Mailbox::new();
    assert!(!m.has_message());
    assert_eq!(m.drain(), None);
    m.post("done".to_string());
    assert!(m.has_message());
    assert_eq!(m.drain(), Some("done".to_string()));
    assert_eq!(m.drain(), None);
}

#[test]
fn mailbox_last_write_wins() {
    let mut m = Mailbox::new();
    m.post("A".to_string());
    m.post("B".to_string());
    assert_eq!(m.drain(), Some("B".to_string()));
    assert_eq!(m.drain(), None);
}
