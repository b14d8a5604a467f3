use termbridge::CommandChannel;
use termbridge::HistoryRing;
use termbridge::Hub;
use termbridge::PollBuffer;
use termbridge::Session;
use termbridge::chunk_contains;
use termbridge::scan_prompt;

#[test]
fn drain_concatenates_in_order_and_empties() {
    let mut b = PollBuffer::new();
    b.append("first ".to_string());
    b.append("second ".to_string());
    b.append("third".to_string());
    assert_eq!(b.drain(), "first second third");
    assert_eq!(b.drain(), "");
}

#[test]
fn drain_of_empty_buffer_is_empty() {
    let mut b = PollBuffer::new();
    assert_eq!(b.drain(), "");
    assert_eq!(b.len(), 0);
}

#[test]
fn history_keeps_last_five_of_seven() {
    let mut h = HistoryRing::new();
    for c in ["c1", "c2", "c3", "c4", "c5", "c6", "c7"] {
        h.push(c.to_string());
    }
    assert_eq!(h.len(), 5);
    for (i, want) in ["c3", "c4", "c5", "c6", "c7"].iter().enumerate() {
        assert_eq!(h.get(i).as_str(), *want);
    }
}

#[test]
fn history_never_exceeds_capacity() {
    let mut h = HistoryRing::new();
    for i in 0..100 {
        h.push(format!("cmd{}", i));
        assert!(h.len() <= 5);
    }
}

#[test]
fn recent_history_is_newest_first_and_at_most_three() {
    let mut h = HistoryRing::new();
    h.push("a".to_string());
    h.push("b".to_string());
    let two = h.recent3();
    assert_eq!(two, vec!["b".to_string(), "a".to_string()]);
    h.push("c".to_string());
    h.push("d".to_string());
    let three = h.recent3();
    assert_eq!(three, vec!["d".to_string(), "c".to_string(), "b".to_string()]);
}

#[test]
fn enqueue_before_readiness_is_dropped() {
    let mut c = CommandChannel::new();
    assert!(!c.ready());
    assert!(!c.enqueue("ls".to_string()));
    assert_eq!(c.pending(), 0);
    assert_eq!(c.pop(), None);
}

#[test]
fn enqueue_after_readiness_is_consumed_once_in_order() {
    let mut c = CommandChannel::new();
    c.mark_ready();
    assert!(c.enqueue("pwd".to_string()));
    assert!(c.enqueue("ls".to_string()));
    assert_eq!(c.pop(), Some("pwd".to_string()));
    assert_eq!(c.pop(), Some("ls".to_string()));
    assert_eq!(c.pop(), None);
}

#[test]
fn mark_ready_is_idempotent() {
    let mut c = CommandChannel::new();
    c.mark_ready();
    assert!(c.enqueue("a".to_string()));
    c.mark_ready();
    assert!(c.ready());
    assert_eq!(c.pending(), 1);
}

#[test]
fn subscriber_before_publish_receives_it() {
    let mut h = Hub::new();
    let id = h.subscribe().unwrap();
    h.publish(&"hello".to_string());
    assert_eq!(h.receive(id), Some("hello".to_string()));
    assert_eq!(h.receive(id), None);
}

#[test]
fn subscriber_after_publish_gets_no_backlog() {
    let mut h = Hub::new();
    h.publish(&"early".to_string());
    let id = h.subscribe().unwrap();
    assert_eq!(h.receive(id), None);
    h.publish(&"late".to_string());
    assert_eq!(h.receive(id), Some("late".to_string()));
}

#[test]
fn publish_after_disconnect_is_harmless() {
    let mut h = Hub::new();
    let gone = h.subscribe().unwrap();
    let stays = h.subscribe().unwrap();
    h.unsubscribe(gone);
    h.publish(&"still flowing".to_string());
    assert_eq!(h.sub_count(), 1);
    assert_eq!(h.receive(stays), Some("still flowing".to_string()));
    assert_eq!(h.receive(gone), None);
}

#[test]
fn publish_with_no_subscribers_is_a_noop() {
    let mut h = Hub::new();
    h.publish(&"nobody listens".to_string());
    assert_eq!(h.sub_count(), 0);
}

#[test]
fn messages_arrive_in_publish_order() {
    let mut h = Hub::new();
    let id = h.subscribe().unwrap();
    h.publish(&"one".to_string());
    h.publish(&"two".to_string());
    assert_eq!(h.receive(id), Some("one".to_string()));
    assert_eq!(h.receive(id), Some("two".to_string()));
}

#[test]
fn prompt_chunk_updates_directory_fact() {
    let mut s = Session::new();
    s.ingest_chunk("root@host:/var/log# ".to_string());
    assert_eq!(s.current_dir(), "/var/log");
}

#[test]
fn chunk_without_hash_leaves_fact_unchanged() {
    let mut s = Session::new();
    s.ingest_chunk("root@host:/var/log# ".to_string());
    s.ingest_chunk("plain program output\n".to_string());
    assert_eq!(s.current_dir(), "/var/log");
}

#[test]
fn initial_fact_is_home_sentinel() {
    let s = Session::new();
    assert_eq!(s.current_dir(), "~");
}

#[test]
fn scan_prompt_finds_leftmost_match() {
    assert_eq!(
        scan_prompt("root@a:/one# root@b:/two#"),
        Some("/one".to_string())
    );
}

#[test]
fn scan_prompt_trims_the_path() {
    assert_eq!(scan_prompt("root@box: /tmp #"), Some("/tmp".to_string()));
}

#[test]
fn scan_prompt_rejects_malformed_shapes() {
    assert_eq!(scan_prompt("no prompt here"), None);
    assert_eq!(scan_prompt("root@host/var#"), None);
    assert_eq!(scan_prompt("root@host:#"), None);
    assert_eq!(scan_prompt("root@host:\n/x#"), None);
    assert_eq!(scan_prompt("root@:/x#"), None);
}

#[test]
fn chunk_contains_finds_characters() {
    assert!(chunk_contains("bash-5.1# ", '#'));
    assert!(!chunk_contains("loading...", '#'));
}

#[test]
fn session_drops_commands_until_first_hash() {
    let mut s = Session::new();
    assert!(!s.submit_command("too early".to_string()));
    assert_eq!(s.consume_command(), None);
    s.ingest_chunk("root@host:~# ".to_string());
    assert!(s.ready());
    assert!(s.submit_command("ls".to_string()));
    assert_eq!(s.consume_command(), Some("ls\n".to_string()));
    assert_eq!(s.consume_command(), None);
}

#[test]
fn consume_records_history_and_frames_one_write() {
    let mut s = Session::new();
    s.ingest_chunk("# ".to_string());
    assert!(s.submit_command("echo hi".to_string()));
    assert!(s.submit_command("pwd".to_string()));
    assert_eq!(s.consume_command(), Some("echo hi\n".to_string()));
    assert_eq!(s.consume_command(), Some("pwd\n".to_string()));
    let recent = s.recent_history();
    assert_eq!(recent, vec!["pwd".to_string(), "echo hi".to_string()]);
}

#[test]
fn session_drain_is_drain_once() {
    let mut s = Session::new();
    s.ingest_chunk("alpha ".to_string());
    s.ingest_chunk("beta".to_string());
    assert_eq!(s.drain_output(), "alpha beta");
    assert_eq!(s.drain_output(), "");
}

#[test]
fn fatal_report_reaches_poll_clients() {
    let mut s = Session::new();
    s.report_fatal("Erro ao criar PTY: boom\n".to_string());
    assert_eq!(s.drain_output(), "Erro ao criar PTY: boom\n");
    assert!(!s.ready());
}

#[test]
fn session_streams_mirror_hub_semantics() {
    let mut s = Session::new();
    let id = s.subscribe_stream().unwrap();
    s.ingest_chunk("chunk one".to_string());
    assert_eq!(s.receive_stream(id), Some("chunk one".to_string()));
    s.unsubscribe_stream(id);
    s.ingest_chunk("chunk two".to_string());
    assert_eq!(s.receive_stream(id), None);
}
