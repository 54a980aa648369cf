use relay_bot::cache::ResponseCache;
use relay_bot::cooldown::{is_cooling, CooldownGate, Verdict};
use relay_bot::queue::{QueueItem, RequestQueue};

fn item(channel: u64, user: u64, prompt: &str) -> QueueItem {
    QueueItem { channel, user, prompt: prompt.to_string() }
}

#[test]
fn channel_cooling_inside_window() {
    let mut gate = CooldownGate::new();
    assert_eq!(gate.check(1, 10, 0), Verdict::Admitted);
    assert_eq!(gate.check(1, 11, 59_999), Verdict::ChannelCooling);
}

#[test]
fn admitted_again_after_full_window() {
    let mut gate = CooldownGate::new();
    assert_eq!(gate.check(1, 10, 5_000), Verdict::Admitted);
    assert_eq!(gate.check(1, 10, 65_000), Verdict::Admitted);
}

#[test]
fn user_cooling_in_other_channel() {
    let mut gate = CooldownGate::new();
    assert_eq!(gate.check(1, 10, 0), Verdict::Admitted);
    assert_eq!(gate.check(2, 10, 1_000), Verdict::UserCooling);
    assert_eq!(gate.check(2, 11, 1_000), Verdict::Admitted);
}

#[test]
fn channel_checked_before_user() {
    let mut gate = CooldownGate::new();
    assert_eq!(gate.check(1, 10, 0), Verdict::Admitted);
    assert_eq!(gate.check(1, 10, 10), Verdict::ChannelCooling);
}

#[test]
fn rejection_does_not_move_window() {
    let mut gate = CooldownGate::new();
    assert_eq!(gate.check(1, 10, 0), Verdict::Admitted);
    assert_eq!(gate.check(1, 10, 30_000), Verdict::ChannelCooling);
    assert_eq!(gate.check(1, 10, 60_000), Verdict::Admitted);
}

#[test]
fn clock_behind_stamp_counts_as_cooling() {
    assert!(is_cooling(100_000, 50_000));
    assert!(is_cooling(0, 59_999));
    assert!(!is_cooling(0, 60_000));
    assert!(is_cooling(u64::MAX, u64::MAX));
}

#[test]
fn cache_get_repeats_until_overwritten() {
    let mut cache = ResponseCache::new(8);
    assert_eq!(cache.get("p"), None);
    cache.put("p".to_string(), "r".to_string());
    for _ in 0..3 {
        assert_eq!(cache.get("p"), Some("r".to_string()));
    }
    cache.put("p".to_string(), "r2".to_string());
    assert_eq!(cache.get("p"), Some("r2".to_string()));
}

#[test]
fn cache_key_is_exact_text() {
    let mut cache = ResponseCache::new(8);
    cache.put("Hello".to_string(), "hi".to_string());
    assert_eq!(cache.get("hello"), None);
    assert_eq!(cache.get("Hello "), None);
    assert_eq!(cache.get("Hello"), Some("hi".to_string()));
}

#[test]
fn full_cache_is_emptied_for_new_prompt() {
    let mut cache = ResponseCache::new(2);
    cache.put("a".to_string(), "1".to_string());
    cache.put("b".to_string(), "2".to_string());
    cache.put("a".to_string(), "3".to_string());
    assert_eq!(cache.get("a"), Some("3".to_string()));
    assert_eq!(cache.get("b"), Some("2".to_string()));
    cache.put("c".to_string(), "4".to_string());
    assert_eq!(cache.get("a"), None);
    assert_eq!(cache.get("b"), None);
    assert_eq!(cache.get("c"), Some("4".to_string()));
}

#[test]
fn queue_is_fifo() {
    let mut q = RequestQueue::new();
    q.enqueue(item(1, 10, "A"));
    q.enqueue(item(2, 20, "B"));
    q.enqueue(item(3, 30, "C"));
    assert_eq!(q.len(), 3);
    assert_eq!(q.dequeue(), Some(item(1, 10, "A")));
    assert_eq!(q.dequeue(), Some(item(2, 20, "B")));
    assert_eq!(q.dequeue(), Some(item(3, 30, "C")));
    assert_eq!(q.dequeue(), None);
}

#[test]
fn empty_queue_gives_none() {
    let mut q = RequestQueue::new();
    assert_eq!(q.len(), 0);
    assert_eq!(q.dequeue(), None);
}
