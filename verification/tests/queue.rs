//! Queue and state-machine behaviour: the concurrency gate, the task
//! state machine, idempotent re-submission, and the end-to-end
//! promotion scenario.

use trackdown::api::TrackInfo;
use trackdown::manager::{DownloadManager, FileProbe, SubmitOutcome};
use trackdown::status::DownloadStatus;

fn track(title: &str, artist: &str) -> TrackInfo {
    TrackInfo {
        id: String::from("t"),
        title: String::from(title),
        artist: String::from(artist),
        album: None,
        duration: None,
        year: None,
        genre: None,
        thumbnail_url: None,
        source: String::from("test"),
        url: String::new(),
        isrc: None,
        album_artist: None,
        track_number: None,
        disc_number: None,
        composer: None,
        quality: None,
        format: None,
    }
}

fn submit_n(m: &mut DownloadManager, n: u64) -> Vec<u64> {
    let mut ids = Vec::new();
    for k in 0..n {
        match m.add_download_with_order(
            track("song", "artist"),
            String::from("/tmp/out.mp3"),
            true,
            (k + 1) as u32,
            false,
            1000 + k,
        ) {
            SubmitOutcome::Queued(id) => ids.push(id),
            SubmitOutcome::AlreadyDownloaded => panic!("unexpected sentinel"),
        }
    }
    ids
}

#[test]
fn already_valid_destination_is_idempotent() {
    let mut m = DownloadManager::new(2);
    let r1 = m.add_download_with_order(track("a", "b"), String::from("/x.mp3"), true, 1, true, 10);
    let r2 = m.add_download_with_order(track("a", "b"), String::from("/x.mp3"), true, 1, true, 11);
    assert_eq!(r1, SubmitOutcome::AlreadyDownloaded);
    assert_eq!(r2, SubmitOutcome::AlreadyDownloaded);
    assert_eq!(m.task_count(), 0);
    assert_eq!(m.active_count(), 0);
}

#[test]
fn promotion_respects_the_concurrency_ceiling() {
    let mut m = DownloadManager::new(2);
    let ids = submit_n(&mut m, 5);
    let started = m.promotion_tick(true, 2000);
    assert_eq!(started, 2);
    assert_eq!(m.active_count(), 2);
    let mut downloading = 0;
    let mut pending = 0;
    for id in &ids {
        match m.get_task(*id).unwrap().status {
            DownloadStatus::Downloading => downloading += 1,
            DownloadStatus::Pending => pending += 1,
            _ => panic!("unexpected status"),
        }
    }
    assert_eq!(downloading, 2);
    assert_eq!(pending, 3);

    // The earliest-created tasks were taken.
    assert_eq!(m.get_task(ids[0]).unwrap().status, DownloadStatus::Downloading);
    assert_eq!(m.get_task(ids[1]).unwrap().status, DownloadStatus::Downloading);

    // Completing both frees capacity; the next tick takes exactly two more.
    m.finish_download(ids[0], true, None, 3000).unwrap();
    m.finish_download(ids[1], true, None, 3001).unwrap();
    assert_eq!(m.active_count(), 0);
    let started2 = m.promotion_tick(true, 4000);
    assert_eq!(started2, 2);
    assert_eq!(m.active_count(), 2);
    assert_eq!(m.get_task(ids[2]).unwrap().status, DownloadStatus::Downloading);
    assert_eq!(m.get_task(ids[3]).unwrap().status, DownloadStatus::Downloading);
    assert_eq!(m.get_task(ids[4]).unwrap().status, DownloadStatus::Pending);
}

#[test]
fn auto_start_off_does_not_self_start_an_idle_queue() {
    let mut m = DownloadManager::new(3);
    submit_n(&mut m, 3);
    assert_eq!(m.promotion_tick(false, 100), 0);
    assert_eq!(m.active_count(), 0);
    // A manual kick pulls the batch along even with auto-start off.
    let n = m.process_queue(200);
    assert_eq!(n, 3);
    assert_eq!(m.active_count(), 3);
}

#[test]
fn completion_pins_progress_at_one_hundred() {
    let mut m = DownloadManager::new(1);
    let ids = submit_n(&mut m, 1);
    m.process_queue(50);
    m.update_task_progress(ids[0], 40).unwrap();
    assert_eq!(m.get_task(ids[0]).unwrap().progress, 40);
    m.finish_download(ids[0], true, None, 60).unwrap();
    let t = m.get_task(ids[0]).unwrap();
    assert_eq!(t.status, DownloadStatus::Completed);
    assert_eq!(t.progress, 100);
    assert_eq!(t.completed_at, Some(60));
}

#[test]
fn failure_records_the_error() {
    let mut m = DownloadManager::new(1);
    let ids = submit_n(&mut m, 1);
    m.process_queue(50);
    m.finish_download(ids[0], false, Some(String::from("network gave out")), 60)
        .unwrap();
    let t = m.get_task(ids[0]).unwrap();
    assert_eq!(t.status, DownloadStatus::Failed);
    assert_eq!(t.error.as_deref(), Some("network gave out"));
    assert_eq!(m.active_count(), 0);
}

#[test]
fn pause_resume_and_cancel_follow_the_state_machine() {
    let mut m = DownloadManager::new(2);
    let ids = submit_n(&mut m, 2);
    m.process_queue(10);
    // Downloading -> Paused
    m.pause_download(ids[0]).unwrap();
    assert_eq!(m.get_task(ids[0]).unwrap().status, DownloadStatus::Paused);
    // Paused -> Pending
    m.resume_download(ids[0]).unwrap();
    assert_eq!(m.get_task(ids[0]).unwrap().status, DownloadStatus::Pending);
    // Pausing a non-downloading task changes nothing.
    m.pause_download(ids[0]).unwrap();
    assert_eq!(m.get_task(ids[0]).unwrap().status, DownloadStatus::Pending);
    // Cancel a non-terminal task.
    m.cancel_download(ids[1]).unwrap();
    assert_eq!(m.get_task(ids[1]).unwrap().status, DownloadStatus::Cancelled);
    // The unit still holds its slot until it exits.
    assert_eq!(m.active_count(), 2);
    m.finish_download(ids[1], true, None, 20).unwrap();
    // A cancelled task does not become completed on unit exit.
    assert_eq!(m.get_task(ids[1]).unwrap().status, DownloadStatus::Cancelled);
    assert_eq!(m.active_count(), 1);
}

#[test]
fn cancel_leaves_terminal_tasks_alone() {
    let mut m = DownloadManager::new(1);
    let ids = submit_n(&mut m, 1);
    m.process_queue(10);
    m.finish_download(ids[0], true, None, 20).unwrap();
    m.cancel_download(ids[0]).unwrap();
    assert_eq!(m.get_task(ids[0]).unwrap().status, DownloadStatus::Completed);
}

#[test]
fn illegal_transitions_are_refused() {
    let mut m = DownloadManager::new(1);
    let ids = submit_n(&mut m, 1);
    // Pending -> Completed is not an edge.
    assert!(m
        .update_task_status(ids[0], DownloadStatus::Completed, None, 5)
        .is_err());
    // Pending -> Downloading is.
    assert!(m
        .update_task_status(ids[0], DownloadStatus::Downloading, None, 5)
        .is_ok());
    assert_eq!(m.get_task(ids[0]).unwrap().status, DownloadStatus::Downloading);
}

#[test]
fn retry_resets_a_terminal_task() {
    let mut m = DownloadManager::new(1);
    let ids = submit_n(&mut m, 1);
    assert!(m.retry_download(ids[0]).is_err());
    m.process_queue(10);
    m.finish_download(ids[0], false, Some(String::from("boom")), 20).unwrap();
    m.retry_download(ids[0]).unwrap();
    let t = m.get_task(ids[0]).unwrap();
    assert_eq!(t.status, DownloadStatus::Pending);
    assert_eq!(t.progress, 0);
    assert_eq!(t.error, None);
}

#[test]
fn signals_on_an_unknown_id_are_silent_no_ops() {
    let mut m = DownloadManager::new(1);
    // The cooperative signals mirror best-effort semantics: unknown ids
    // change nothing and still succeed.
    assert!(m.pause_download(42).is_ok());
    assert!(m.resume_download(42).is_ok());
    assert!(m.cancel_download(42).is_ok());
    assert_eq!(m.task_count(), 0);
    // A unit exit must name a real slot-holding task.
    assert!(m.finish_download(42, true, None, 1).is_err());
    assert!(m.get_task(42).is_none());
    assert!(m.get_progress(42).is_none());
}

#[test]
fn remove_refuses_an_active_task() {
    let mut m = DownloadManager::new(1);
    let ids = submit_n(&mut m, 2);
    m.process_queue(10);
    assert!(m.remove_download(ids[0]).is_err());
    assert!(m.remove_download(ids[1]).is_ok());
    assert_eq!(m.task_count(), 1);
    assert!(m.remove_download(999).is_ok());
}

#[test]
fn display_list_is_sorted_and_densely_numbered() {
    let mut m = DownloadManager::new(1);
    let ids = submit_n(&mut m, 3);
    m.process_queue(10);
    m.finish_download(ids[0], true, None, 20).unwrap();
    m.process_queue(30);
    // ids[1] downloading, ids[2] pending, ids[0] completed.
    let list = m.get_all_tasks();
    assert_eq!(list.len(), 3);
    assert_eq!(list[0].id, ids[1]);
    assert_eq!(list[1].id, ids[2]);
    assert_eq!(list[2].id, ids[0]);
    for (i, t) in list.iter().enumerate() {
        assert_eq!(t.order, (i + 1) as u32);
    }
}

#[test]
fn next_individual_order_counts_queued_and_running() {
    let mut m = DownloadManager::new(1);
    assert_eq!(m.get_next_individual_order(), 1);
    let ids = submit_n(&mut m, 3);
    assert_eq!(m.get_next_individual_order(), 4);
    m.process_queue(10);
    m.finish_download(ids[0], true, None, 20).unwrap();
    // One completed, one downloading (after next kick), one pending.
    m.process_queue(30);
    assert_eq!(m.get_next_individual_order(), 3);
}

#[test]
fn stats_report_counts_and_success_rate() {
    let mut m = DownloadManager::new(2);
    let ids = submit_n(&mut m, 4);
    m.process_queue(10);
    m.finish_download(ids[0], true, None, 20).unwrap();
    m.finish_download(ids[1], false, Some(String::from("x")), 21).unwrap();
    let s = m.get_app_stats();
    assert_eq!(s.total_tasks, 4);
    assert_eq!(s.completed_tasks, 1);
    assert_eq!(s.failed_tasks, 1);
    assert_eq!(s.success_rate_percent, 25);
}

#[test]
fn renumber_queue_ranks_pending_tasks() {
    let mut m = DownloadManager::new(1);
    let ids = submit_n(&mut m, 3);
    m.process_queue(10);
    // ids[0] downloading; ids[1], ids[2] pending.
    m.renumber_queue().unwrap();
    assert_eq!(m.get_task(ids[1]).unwrap().order, 1);
    assert_eq!(m.get_task(ids[2]).unwrap().order, 2);
}

#[test]
fn verify_downloads_reports_missing_and_oversized_files() {
    let mut m = DownloadManager::new(3);
    let ids = submit_n(&mut m, 3);
    m.process_queue(10);
    m.finish_download(ids[0], true, None, 20).unwrap();
    m.finish_download(ids[1], true, None, 21).unwrap();
    m.finish_download(ids[2], true, None, 22).unwrap();
    let probes = vec![
        FileProbe { id: ids[0], file_exists: true, size_bytes: 5_000_000 },
        FileProbe { id: ids[1], file_exists: true, size_bytes: 64 * 1024 * 1024 },
        FileProbe { id: ids[2], file_exists: false, size_bytes: 0 },
    ];
    let v = m.verify_downloads(&probes);
    assert_eq!(v.total_tasks, 3);
    assert_eq!(v.completed_tasks, 3);
    assert_eq!(v.actual_files, 2);
    assert_eq!(v.missing_files, vec![ids[2]]);
    assert_eq!(v.oversized_files, vec![ids[1]]);
}
