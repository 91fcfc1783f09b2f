use keyaura::updater::{Notice, NoticeKind, UpdateAction, UpdateEvent, UpdateFlow, UpdateStage};

fn flow(verbose: bool) -> UpdateFlow {
    UpdateFlow::new(verbose, "0.0.3".to_string())
}

#[test]
fn background_check_is_quiet_when_up_to_date_or_failing() {
    let mut f = flow(false);
    assert_eq!(f.step(UpdateEvent::UpToDate), UpdateAction::Finish { log: None, notice: None });
    assert!(f.is_finished());
    let mut f = flow(false);
    assert_eq!(
        f.step(UpdateEvent::CheckFailed("offline".into())),
        UpdateAction::Finish {
            log: Some("KeyAura: update check failed: offline".into()),
            notice: None
        }
    );
    let mut f = flow(false);
    assert_eq!(
        f.step(UpdateEvent::UpdaterUnavailable("no key".into())),
        UpdateAction::Finish {
            log: Some("KeyAura: updater unavailable: no key".into()),
            notice: None
        }
    );
}

#[test]
fn manual_check_reports_every_outcome() {
    let mut f = flow(true);
    assert_eq!(
        f.step(UpdateEvent::UpToDate),
        UpdateAction::Finish {
            log: None,
            notice: Some(Notice {
                title: "You're up to date".into(),
                message: "KeyAura 0.0.3 is the latest version.".into(),
                kind: NoticeKind::Info,
            }),
        }
    );
    let mut f = flow(true);
    assert_eq!(
        f.step(UpdateEvent::CheckFailed("offline".into())),
        UpdateAction::Finish {
            log: Some("KeyAura: update check failed: offline".into()),
            notice: Some(Notice {
                title: "Could not check for updates".into(),
                message: "offline".into(),
                kind: NoticeKind::Error,
            }),
        }
    );
}

#[test]
fn manual_check_reports_an_updater_that_cannot_be_set_up() {
    let mut f = flow(true);
    assert_eq!(
        f.step(UpdateEvent::UpdaterUnavailable("no key".into())),
        UpdateAction::Finish {
            log: Some("KeyAura: updater unavailable: no key".into()),
            notice: Some(Notice {
                title: "Could not check for updates".into(),
                message: "no key".into(),
                kind: NoticeKind::Error,
            }),
        }
    );
    assert!(f.is_finished());
}

#[test]
fn accepted_update_is_downloaded_installed_and_restarted() {
    let mut f = flow(false);
    let ask = f.step(UpdateEvent::UpdateFound {
        version: "0.0.4".into(),
        current: "0.0.3".into(),
    });
    assert_eq!(
        ask,
        UpdateAction::Ask {
            title: "Update available".into(),
            message: "KeyAura 0.0.4 is available \u{2014} you have 0.0.3.\n\nDownload it now?"
                .into(),
            confirm: "Download".into(),
            cancel: "Later".into(),
        }
    );
    assert_eq!(f.stage, UpdateStage::ConfirmingDownload("0.0.4".into()));
    assert_eq!(f.step(UpdateEvent::Answered(true)), UpdateAction::Download);
    assert_eq!(
        f.step(UpdateEvent::Downloaded),
        UpdateAction::Ask {
            title: "Update downloaded".into(),
            message: "KeyAura 0.0.4 is ready to install. Restart now to finish updating?".into(),
            confirm: "Restart".into(),
            cancel: "Later".into(),
        }
    );
    assert_eq!(f.step(UpdateEvent::Answered(true)), UpdateAction::Install);
    assert_eq!(f.step(UpdateEvent::Installed), UpdateAction::Restart);
    assert!(f.is_finished());
}

#[test]
fn declined_or_failed_update_stops() {
    let mut f = flow(true);
    f.step(UpdateEvent::UpdateFound { version: "1.0.0".into(), current: "0.0.3".into() });
    assert_eq!(f.step(UpdateEvent::Answered(false)), UpdateAction::Finish { log: None, notice: None });
    assert!(f.is_finished());

    let mut f = flow(false);
    f.step(UpdateEvent::UpdateFound { version: "1.0.0".into(), current: "0.0.3".into() });
    f.step(UpdateEvent::Answered(true));
    assert_eq!(
        f.step(UpdateEvent::DownloadFailed("timeout".into())),
        UpdateAction::Finish {
            log: None,
            notice: Some(Notice {
                title: "Update failed".into(),
                message: "Could not download the update: timeout".into(),
                kind: NoticeKind::Error,
            }),
        }
    );

    let mut f = flow(false);
    f.step(UpdateEvent::UpdateFound { version: "1.0.0".into(), current: "0.0.3".into() });
    f.step(UpdateEvent::Answered(true));
    f.step(UpdateEvent::Downloaded);
    assert_eq!(f.step(UpdateEvent::Answered(false)), UpdateAction::Finish { log: None, notice: None });

    let mut f = flow(false);
    f.step(UpdateEvent::UpdateFound { version: "1.0.0".into(), current: "0.0.3".into() });
    f.step(UpdateEvent::Answered(true));
    f.step(UpdateEvent::Downloaded);
    f.step(UpdateEvent::Answered(true));
    assert_eq!(
        f.step(UpdateEvent::InstallFailed("disk full".into())),
        UpdateAction::Finish {
            log: None,
            notice: Some(Notice {
                title: "Update failed".into(),
                message: "Could not install the update: disk full".into(),
                kind: NoticeKind::Error,
            }),
        }
    );
}

#[test]
fn out_of_order_events_end_the_flow_quietly() {
    let mut f = flow(true);
    assert_eq!(f.step(UpdateEvent::Installed), UpdateAction::Finish { log: None, notice: None });
    assert!(f.is_finished());
    assert_eq!(f.step(UpdateEvent::UpToDate), UpdateAction::Finish { log: None, notice: None });
    assert!(f.is_finished());
}
