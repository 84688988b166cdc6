use kamaitachi::queue::{job_outcome, FileStatus, JobOutcome, TranscodeQueue};

#[test]
fn files_run_in_order() {
    let mut q = TranscodeQueue::new(2);
    assert_eq!(q.start_next(), Some(0));
    assert_eq!(q.statuses[0], FileStatus::Processing);
    q.finish(0, JobOutcome::Succeeded);
    assert_eq!(q.start_next(), Some(1));
    q.finish(1, JobOutcome::Failed("bad".to_string()));
    assert_eq!(q.start_next(), None);
    assert!(q.is_done());
    assert_eq!(q.statuses, vec![FileStatus::Completed, FileStatus::Error("bad".to_string())]);
}

#[test]
fn cancellation_ends_the_run() {
    let mut q = TranscodeQueue::new(3);
    assert_eq!(q.start_next(), Some(0));
    q.finish(0, job_outcome(true, false, ""));
    assert_eq!(q.statuses[0], FileStatus::Cancelled);
    assert_eq!(q.start_next(), None);
    assert_eq!(q.start_next(), None);
    assert_eq!(q.statuses[1], FileStatus::Pending);
    assert_eq!(q.statuses[2], FileStatus::Pending);
    assert!(q.is_done());
}

#[test]
fn outcomes_from_exit_and_stderr() {
    assert_eq!(job_outcome(false, true, "anything"), JobOutcome::Succeeded);
    assert_eq!(job_outcome(true, true, ""), JobOutcome::Cancelled);
    assert_eq!(
        job_outcome(false, false, "Permission denied"),
        JobOutcome::Failed(
            "ファイルへのアクセス権限がありません\n\n💡 出力先フォルダへの書き込み権限があるか確認してください。管理者権限が必要な場合があります"
                .to_string()
        )
    );
}

#[test]
fn status_labels() {
    assert_eq!(FileStatus::Pending.label(), "待機中");
    assert_eq!(FileStatus::Error("x".to_string()).label(), "エラー");
    assert_eq!(FileStatus::Cancelled.label(), "キャンセル");
}
