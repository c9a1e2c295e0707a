use maestro::quit::{
    advance, daemon_detail, intercept_close, render_detail, unsaved_detail, CloseRequest, QuitStage,
    QuitStep,
};

#[test]
fn the_render_prompt_counts_the_files_it_knows_about() {
    assert!(render_detail(1).starts_with("A file is still being converted."));
    assert!(render_detail(4).starts_with("4 files are still being converted."));
    // Before the first worker reports in there is no count to give.
    assert!(render_detail(0).starts_with("A conversion is still in progress."));
}

#[test]
fn the_unsaved_prompt_lists_every_pending_edit() {
    let detail = unsaved_detail(&vec![
        "SoundFont list 'Default'".to_string(),
        "Converter settings".to_string(),
    ]);

    assert!(detail.contains("•  SoundFont list 'Default'"));
    assert!(detail.contains("•  Converter settings"));
}

#[test]
fn the_daemon_prompt_mentions_the_memory_only_when_it_is_known() {
    assert!(daemon_detail("1.2 GB").contains("holding 1.2 GB"));
    assert!(!daemon_detail("").contains("holding"));
}

#[test]
fn render_detail_full_texts() {
    assert_eq!(
        render_detail(12),
        "12 files are still being converted. Cancelling now leaves the output unfinished."
    );
    assert_eq!(
        render_detail(0),
        "A conversion is still in progress. Cancelling now leaves the output unfinished."
    );
}

#[test]
fn unsaved_detail_exact_layout() {
    let detail = unsaved_detail(&vec!["a".to_string(), "b".to_string()]);
    assert_eq!(
        detail,
        "These have changes that were never written to disk:\n\n  •  a\n  •  b"
    );
}

#[test]
fn daemon_detail_exact_texts() {
    assert_eq!(
        daemon_detail("40 MB"),
        "Maestro will keep running in the background after this window closes, holding 40 MB."
    );
    assert_eq!(
        daemon_detail(""),
        "Maestro will keep running in the background after this window closes."
    );
}

#[test]
fn a_running_conversion_comes_first() {
    let unsaved = vec!["Converter settings".to_string()];
    match advance(true, 3, false, &unsaved, true, "1 GB") {
        QuitStep::Prompt(stage, detail) => {
            assert_eq!(stage, QuitStage::Render);
            assert!(detail.starts_with("3 files"));
        }
        QuitStep::Close => panic!("a running conversion must hold the window"),
    }
}

#[test]
fn unsaved_edits_come_before_the_service() {
    let unsaved = vec!["Converter settings".to_string()];
    match advance(false, 0, false, &unsaved, true, "") {
        QuitStep::Prompt(stage, _) => assert_eq!(stage, QuitStage::Unsaved),
        QuitStep::Close => panic!("pending edits must hold the window"),
    }
    // Once the user chose to discard them, the service prompt is next.
    match advance(false, 0, true, &unsaved, true, "") {
        QuitStep::Prompt(stage, _) => assert_eq!(stage, QuitStage::Daemon),
        QuitStep::Close => panic!("the service prompt was expected"),
    }
}

#[test]
fn nothing_pending_closes() {
    assert_eq!(advance(false, 0, false, &Vec::new(), false, ""), QuitStep::Close);
}

#[test]
fn close_requests_follow_the_prompt_on_screen() {
    assert_eq!(intercept_close(QuitStage::Render), CloseRequest::Keep);
    assert_eq!(intercept_close(QuitStage::Unsaved), CloseRequest::Keep);
    assert_eq!(intercept_close(QuitStage::Daemon), CloseRequest::Allow);
    assert_eq!(intercept_close(QuitStage::Idle), CloseRequest::Advance);
}
