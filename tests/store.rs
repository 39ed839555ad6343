use wisp::store::NotificationStore;
use wisp::types::Notification;

#[test]
fn store_allocates_replaces_and_removes() {
    let mut store = NotificationStore::new();
    let a = Notification { summary: "a".into(), ..Notification::default() };
    let b = Notification { summary: "b".into(), ..Notification::default() };
    assert_eq!(store.insert(a.clone()), Some(1));
    assert_eq!(store.insert(b.clone()), Some(2));
    assert_eq!(store.get_generation(1), Some(0));
    let (previous, generation) = store.replace_in_place(1, b.clone()).unwrap();
    assert_eq!(previous, a);
    assert_eq!(generation, 1);
    assert!(store.replace_in_place(7, b.clone()).is_none());
    assert_eq!(store.remove(2).map(|s| s.generation), Some(0));
    assert!(store.remove(2).is_none());
    assert_eq!(store.snapshot(), vec![(1, b)]);
    assert_eq!(store.get(1).map(|s| s.generation), Some(1));
    assert_eq!(store.insert(Notification::default()), Some(3));
}
