use ytdl_monitor::queue::DownloadQueue;

#[test]
fn new_queue_is_empty() {
    let q = DownloadQueue::new();
    let st = q.get_status();
    assert_eq!(st.active, 0);
    assert_eq!(st.queued, 0);
    assert_eq!(st.downloads.len(), 0);
}

#[test]
fn add_appends_in_fifo_order() {
    let mut q = DownloadQueue::new();
    assert!(q.add("https://youtube.com/a".to_string()));
    assert!(q.add("https://youtube.com/b".to_string()));
    let st = q.get_status();
    assert_eq!(st.queued, 2);
    assert_eq!(st.downloads[0].url, "https://youtube.com/a");
    assert_eq!(st.downloads[1].url, "https://youtube.com/b");
}

#[test]
fn add_rejects_queued_duplicate() {
    let mut q = DownloadQueue::new();
    assert!(q.add("https://youtube.com/a".to_string()));
    assert!(!q.add("https://youtube.com/a".to_string()));
    let st = q.get_status();
    assert_eq!(st.queued, 1);
}

#[test]
fn add_rejects_active_duplicate() {
    let mut q = DownloadQueue::new();
    q.mark_active("https://youtube.com/a".to_string());
    assert!(!q.add("https://youtube.com/a".to_string()));
    let st = q.get_status();
    assert_eq!(st.active, 1);
    assert_eq!(st.queued, 0);
}

#[test]
fn get_next_pops_head_first() {
    let mut q = DownloadQueue::new();
    q.add("a1".to_string());
    q.add("b2".to_string());
    assert_eq!(q.get_next().as_deref(), Some("a1"));
    assert_eq!(q.get_next().as_deref(), Some("b2"));
    assert_eq!(q.get_next(), None);
}

#[test]
fn can_start_respects_limit() {
    let mut q = DownloadQueue::new();
    assert!(q.can_start(1));
    q.mark_active("a1".to_string());
    assert!(!q.can_start(1));
    assert!(q.can_start(2));
    assert!(!q.can_start(0));
}

#[test]
fn remove_active_is_idempotent() {
    let mut q = DownloadQueue::new();
    q.mark_active("a1".to_string());
    q.remove_active("a1");
    assert_eq!(q.get_status().active, 0);
    q.remove_active("a1");
    assert_eq!(q.get_status().active, 0);
}

#[test]
fn try_admit_moves_head_to_active() {
    let mut q = DownloadQueue::new();
    q.add("a1".to_string());
    q.add("b2".to_string());
    let admitted = q.try_admit(2);
    assert_eq!(admitted.as_deref(), Some("a1"));
    let st = q.get_status();
    assert_eq!(st.active, 1);
    assert_eq!(st.queued, 1);
    assert_eq!(st.downloads[0].url, "a1");
    assert_eq!(st.downloads[0].status, "active");
    assert_eq!(st.downloads[1].url, "b2");
    assert_eq!(st.downloads[1].status, "queued");
}

#[test]
fn try_admit_blocks_at_limit() {
    let mut q = DownloadQueue::new();
    q.add("a1".to_string());
    q.mark_active("other".to_string());
    assert_eq!(q.try_admit(1), None);
    let st = q.get_status();
    assert_eq!(st.active, 1);
    assert_eq!(st.queued, 1);
}

#[test]
fn try_admit_on_empty_queue_yields_nothing() {
    let mut q = DownloadQueue::new();
    assert_eq!(q.try_admit(3), None);
}

#[test]
fn lowering_the_limit_does_not_preempt() {
    let mut q = DownloadQueue::new();
    q.mark_active("a1".to_string());
    q.mark_active("b2".to_string());
    q.add("c3".to_string());
    // the limit was lowered below the active count: no admission, no eviction
    assert_eq!(q.try_admit(1), None);
    let st = q.get_status();
    assert_eq!(st.active, 2);
    assert_eq!(st.queued, 1);
}

#[test]
fn status_labels_active_then_queued() {
    let mut q = DownloadQueue::new();
    q.add("q1".to_string());
    q.add("q2".to_string());
    q.mark_active("r1".to_string());
    let st = q.get_status();
    assert_eq!(st.active, 1);
    assert_eq!(st.queued, 2);
    assert_eq!(st.downloads.len(), 3);
    assert_eq!(st.downloads[0].url, "r1");
    assert_eq!(st.downloads[0].status, "active");
    assert_eq!(st.downloads[1].url, "q1");
    assert_eq!(st.downloads[1].status, "queued");
    assert_eq!(st.downloads[2].url, "q2");
    assert_eq!(st.downloads[2].status, "queued");
}
