use logazer::classifier::{Classifier, EntityMeta};
use logazer::grabber::{after_frame_sent, is_game_title, watch_step, CaptureStep, CommBlock, WatchAction, WINDOW_TITLE};
use logazer::historybar::HistoryBar;
use logazer::imagework::{bitline, bitmap, Pixmap, Rgba};
use logazer::processor::{process_screenshot, worker_continues, worker_step, SendOutcome};
use logazer::types::{sd_base, Color32, Entity, Meta, Quality, ScreenCoords, Screenshot, NO_COORD};

#[test]
fn quality_names_round_trip() {
    for q in [Quality::Unknown, Quality::Common, Quality::Uncommon, Quality::Rare, Quality::Epic, Quality::Legendary] {
        assert_eq!(Quality::from_str(q.to_str()), Some(q));
    }
    assert_eq!(Quality::Legendary.to_str(), "Legendary");
    assert_eq!(Quality::from_str("Mythic"), None);
    assert_eq!(Quality::from_str("common"), None);
    assert_eq!(Quality::from_str(""), None);
}

#[test]
fn quality_colours() {
    assert_eq!(Quality::Unknown.to_color32(), Color32::from_rgb(128, 128, 128));
    assert_eq!(Quality::Common.to_color32(), Color32::from_rgb(255, 255, 255));
    assert_eq!(Quality::Uncommon.to_color32(), Color32::from_rgb(48, 218, 120));
    assert_eq!(Quality::Rare.to_color32(), Color32::from_rgb(0, 113, 218));
    assert_eq!(Quality::Epic.to_color32(), Color32::from_rgb(218, 64, 166));
    assert_eq!(Quality::Legendary.to_color32(), Color32::from_rgb(218, 159, 57));
    assert_eq!(Color32::from_rgb(1, 2, 3).a, 255);
}

#[test]
fn quality_order_follows_value() {
    assert!(Quality::Unknown < Quality::Common);
    assert!(Quality::Epic < Quality::Legendary);
}

#[test]
fn entity_names() {
    assert_eq!(Entity::Unknown.to_str(), "Unknown");
    assert_eq!(Entity::Bush.to_str(), "Bush");
    assert_eq!(Entity::Driftwood.to_str(), "Driftwood");
    assert_eq!(Entity::Rock.to_str(), "Rock");
    assert_eq!(Entity::Koa.to_str(), "Unhandled");
}

#[test]
fn empty_meta_and_sameness() {
    let e = Meta::empty();
    assert_eq!(e.quality, Quality::Unknown);
    assert_eq!(e.entity, Entity::Unknown);
    assert_eq!((e.x, e.y, e.z, e.a), (NO_COORD, NO_COORD, NO_COORD, NO_COORD));
    let mut moved = Meta::empty();
    moved.x = 5;
    assert!(e.same(&moved));
    let mut rare = Meta::empty();
    rare.quality = Quality::Rare;
    assert!(!e.same(&rare));
    let mut bush = Meta::empty();
    bush.entity = Entity::Bush;
    assert!(!e.same(&bush));
}

#[test]
fn meta_to_str() {
    let mut m = Meta::empty();
    m.quality = Quality::Epic;
    m.entity = Entity::Rock;
    assert_eq!(m.to_str(), "(quality:Epic, entity:'Rock')");
    assert_eq!(Meta::empty().to_str(), "(quality:Unknown, entity:'Unknown')");
}

#[test]
fn scaled_coords_of_full_hd() {
    let sc = ScreenCoords::scaled(1920, 1080);
    assert_eq!((sc.screen_width, sc.screen_height), (1920, 1080));
    assert_eq!((sc.title_top, sc.title_bottom, sc.title_width), (30, 114, 450));
    assert_eq!((sc.coords_top, sc.coords_bottom), (39, 55));
    assert_eq!((sc.coords_right, sc.coords_left), (1710, 1380));
    assert_eq!((sc.rhombus_cy, sc.rhombus_size), (51, 18));
}

#[test]
fn scaling_to_base_size_is_identity() {
    assert_eq!(ScreenCoords::scaled(2560, 1440), sd_base());
    let img = Pixmap::from_raw(2560, 1440, vec![0u8; 2560 * 1440 * 4]).unwrap();
    assert_eq!(ScreenCoords::get_for_image(&img), sd_base());
    let small = Pixmap::from_raw(640, 360, vec![0u8; 640 * 360 * 4]).unwrap();
    assert_eq!(ScreenCoords::get_for_image(&small), ScreenCoords::scaled(640, 360));
}

fn gradient() -> Pixmap {
    // pixel (x, y) has all channels 60 * x + y
    let mut data = Vec::new();
    for y in 0..3u8 {
        for x in 0..5u8 {
            let v = 60 * x + y;
            data.extend_from_slice(&[v, v, v, 255]);
        }
    }
    Pixmap::from_raw(5, 3, data).unwrap()
}

#[test]
fn bitmap_and_bitline_threshold_luminance() {
    let img = gradient();
    // luminance of grey v is (256 * v) / 256 = v
    let m = bitmap(&img, 1, 1, 4, 2, 121);
    assert_eq!((m.width(), m.height()), (4, 2));
    assert_eq!(m.get_pixel(0, 0), 0); // 61
    assert_eq!(m.get_pixel(1, 0), 255); // 121
    assert_eq!(m.get_pixel(1, 1), 255); // 122
    let line = bitline(&img, 1, 1, 4, 121);
    assert_eq!(line, vec![0, 255, 255, 255]);
    for dx in 0..4 {
        assert_eq!(m.get_pixel(dx, 0), line[dx as usize]);
    }
}

#[test]
fn entity_meta_from_image() {
    let img = Pixmap::from_raw(32, 20, vec![255u8; 32 * 20 * 4]).unwrap();
    let sc = ScreenCoords::scaled(32, 20);
    let em = EntityMeta::from_image(&img, &sc, 2);
    assert_eq!(em.bitmap.width(), sc.title_width);
    assert_eq!(em.bitmap.height(), sc.title_bottom - sc.title_top);
    assert_eq!(em.bitline.len(), sc.title_width as usize);
    assert!(em.bitline.iter().all(|v| *v == 255));
    assert_eq!(em.text, "Undefined");
}

#[test]
fn classifier_keeps_its_path() {
    let _c = Classifier::new("./assets/samples");
}

#[test]
fn history_bar_keeps_most_recent() {
    let mut bar = HistoryBar::new(3);
    assert_eq!(bar.capacity(), 3);
    for i in 0..5u8 {
        bar.push(Color32::from_rgb(i, 0, 0));
    }
    let reds: Vec<u8> = bar.values().iter().map(|c| c.r).collect();
    assert_eq!(reds, vec![2, 3, 4]);
    let mut one = HistoryBar::new(1);
    one.push(Color32::from_rgb(1, 1, 1));
    one.push(Color32::from_rgb(2, 2, 2));
    assert_eq!(one.values().len(), 1);
    assert_eq!(one.values()[0], Color32::from_rgb(2, 2, 2));
}

#[test]
fn worker_forwards_only_changes() {
    let prev = Meta::empty();
    let mut rare = Meta::empty();
    rare.quality = Quality::Rare;
    let (next, forward) = worker_step(&prev, &rare);
    assert!(forward);
    assert_eq!(next, rare);
    let mut rare_moved = rare;
    rare_moved.x = 17;
    let (next2, forward2) = worker_step(&next, &rare_moved);
    assert!(!forward2);
    assert_eq!(next2, rare_moved);
    assert!(worker_continues(SendOutcome::Sent));
    assert!(worker_continues(SendOutcome::Full));
    assert!(!worker_continues(SendOutcome::Disconnected));
}

#[test]
fn screenshot_is_processed() {
    let img = Pixmap::from_raw(2560, 1440, vec![0u8; 2560 * 1440 * 4]).unwrap();
    let mut ss = Screenshot::new(img);
    assert!(ss.pit_received.is_none() && ss.pit_parsed.is_none());
    assert_eq!(ss.meta, Meta::empty());
    assert!(process_screenshot(&mut ss));
    assert!(ss.pit_received.is_some() && ss.pit_parsed.is_some());
    assert_eq!(ss.meta, Meta::empty());
}

#[test]
fn screenshot_timestamps() {
    let img = Pixmap::from_raw(1, 1, vec![0u8; 4]).unwrap();
    let mut ss = Screenshot::new(img);
    ss.set_received();
    assert!(ss.pit_received.is_some());
    assert!(ss.pit_parsed.is_none());
    ss.set_parsed();
    assert!(ss.pit_parsed.is_some());
    assert!(ss.pit_parsed.unwrap() >= ss.pit_received.unwrap());
}

#[test]
fn watcher_decisions() {
    assert_eq!(watch_step(None, None), WatchAction::Idle);
    assert_eq!(watch_step(Some(7), Some(7)), WatchAction::Idle);
    assert_eq!(watch_step(None, Some(7)), WatchAction::StartCapture);
    assert_eq!(watch_step(Some(3), Some(7)), WatchAction::StartCapture);
    assert_eq!(watch_step(Some(7), None), WatchAction::StopCapture);
}

#[test]
fn capture_decisions() {
    assert_eq!(after_frame_sent(SendOutcome::Disconnected), CaptureStep::Stop);
    assert_eq!(after_frame_sent(SendOutcome::Full), CaptureStep::CheckStopFlag);
    assert_eq!(after_frame_sent(SendOutcome::Sent), CaptureStep::CheckStopFlag);
}

#[test]
fn game_window_title() {
    assert!(is_game_title(WINDOW_TITLE));
    assert!(is_game_title("Last Oasis  "));
    assert!(!is_game_title("Last Oasis"));
    let _ = Rgba { r: 0, g: 0, b: 0, a: 0 };
}

#[test]
fn comm_block_flags_on_one_thread() {
    let (tx, rx) = crossbeam_channel::bounded::<Screenshot>(1);
    let mut comm = CommBlock::new(tx);
    assert!(!comm.watcher_is_started());
    assert!(!comm.watcher_started_swap(true));
    assert!(comm.watcher_is_started());
    assert!(comm.watcher_started_swap(false));
    assert!(!comm.capture_is_started());
    assert!(!comm.capture_started_swap(true));
    assert!(comm.capture_is_started());
    assert!(!comm.capture_is_active());
    assert!(!comm.recv_got_frame());
    comm.send_got_frame();
    assert!(comm.recv_got_frame());
    assert!(!comm.recv_got_frame());
    assert!(!comm.recv_watcher_stop());
    comm.send_watcher_stop();
    assert!(comm.recv_watcher_stop());
    assert!(!comm.recv_watcher_stop());
    comm.send_capture_stop();
    assert!(comm.recv_capture_stop());
    assert!(!comm.recv_capture_stop());
    let img = Pixmap::from_raw(1, 1, vec![0u8; 4]).unwrap();
    comm.frame_tx.try_send(Screenshot::new(img)).unwrap();
    assert!(rx.try_recv().is_ok());
}
