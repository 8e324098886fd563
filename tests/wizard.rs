use flash_wizard::checksum::{digest_text, HashKind};
use flash_wizard::content::{Content, DevicesView, ImageView};
use flash_wizard::flash::{Fraction, TaskEvent, TaskStatus, Tick};
use flash_wizard::wizard::{App, Step, WizardState};

const MIB: u64 = 1024 * 1024;

fn ids(names: &[&str]) -> Vec<String> {
    names.iter().map(|s| s.to_string()).collect()
}

fn at_devices(devices: &[&str]) -> App {
    let mut app = App::new();
    assert!(app.load_image("disk.img".to_string(), vec![0u8; 16]));
    assert_eq!(app.advance(), Step::EnumerateDevices);
    assert!(app.populate_devices(ids(devices)));
    app
}

#[test]
fn advance_without_image_is_rejected() {
    let mut app = App::new();
    assert_eq!(app.advance(), Step::Rejected);
    assert_eq!(app.state(), WizardState::ChooseImage);
}

#[test]
fn retreat_from_image_page_quits() {
    let mut app = App::new();
    assert_eq!(app.retreat(), Step::Quit);
}

#[test]
fn back_then_forward_gives_fresh_catalog() {
    let mut app = at_devices(&["/dev/sdb", "/dev/sdc"]);
    app.toggle_select_all(true);
    assert_eq!(app.retreat(), Step::ShowImage);
    assert_eq!(app.state(), WizardState::ChooseImage);
    assert!(app.content.devices_view.catalog.entries.is_empty());
    assert_eq!(app.advance(), Step::EnumerateDevices);
    assert_eq!(app.state(), WizardState::SelectDevices);
    assert!(app.content.devices_view.catalog.entries.is_empty());
    assert!(app.populate_devices(ids(&["/dev/sdb", "/dev/sdc"])));
    assert!(app.selected_ids().is_empty());
    assert_eq!(app.content.devices_view.catalog.entries.len(), 2);
}

#[test]
fn flashing_needs_a_selected_device() {
    let mut app = at_devices(&["/dev/sdb"]);
    assert_eq!(app.advance(), Step::Rejected);
    assert_eq!(app.state(), WizardState::SelectDevices);
    app.set_device_selected(0, true);
    assert_eq!(app.advance(), Step::StartFlashing);
    assert_eq!(app.state(), WizardState::Flashing);
    assert_eq!(app.run.tasks.len(), 1);
    assert_eq!(app.retreat(), Step::Rejected);
    assert_eq!(app.advance(), Step::Rejected);
}

#[test]
fn selection_after_start_does_not_change_the_run() {
    let mut app = at_devices(&["/dev/sdb", "/dev/sdc"]);
    app.set_device_selected(1, true);
    assert_eq!(app.advance(), Step::StartFlashing);
    app.toggle_select_all(true);
    assert_eq!(app.run.tasks.len(), 1);
    assert_eq!(app.run.tasks[0].device, "/dev/sdc");
}

#[test]
fn two_devices_one_fails_then_summary() {
    let mut app = App::new();
    assert!(app.load_image("ten.img".to_string(), vec![0u8; (10 * MIB) as usize]));
    assert_eq!(app.advance(), Step::EnumerateDevices);
    assert!(app.populate_devices(ids(&["/dev/sdb", "/dev/sdc"])));
    app.toggle_select_all(true);
    assert_eq!(app.advance(), Step::StartFlashing);

    for step in 0..=10u64 {
        app.record(TaskEvent::Progress { task: 0, bytes: step * MIB });
    }
    for step in 0..=4u64 {
        app.record(TaskEvent::Progress { task: 1, bytes: step * MIB });
    }
    app.record(TaskEvent::Finished { task: 1, outcome: Err("write failed".to_string()) });
    match app.tick() {
        Tick::Progress(bars) => {
            assert_eq!(bars[0], Fraction { done: 10 * MIB, total: 10 * MIB });
            assert_eq!(bars[1], Fraction { done: 10 * MIB, total: 10 * MIB });
        }
        _ => panic!("the run must go on while device A is running"),
    }
    assert_eq!(app.state(), WizardState::Flashing);

    app.record(TaskEvent::Finished { task: 0, outcome: Ok(()) });
    match app.tick() {
        Tick::Complete(bars) => {
            assert!(bars.iter().all(|b| b.is_full()));
        }
        _ => panic!("the run must be complete"),
    }
    assert_eq!(app.state(), WizardState::Summary);
    assert!(matches!(app.run.tasks[0].status, TaskStatus::Succeeded));
    assert!(matches!(app.run.tasks[1].status, TaskStatus::Failed(_)));
    assert_eq!(app.advance(), Step::Quit);
}

#[test]
fn tick_is_idle_before_flashing() {
    let mut app = at_devices(&["/dev/sdb"]);
    assert!(matches!(app.tick(), Tick::Idle));
    assert_eq!(app.state(), WizardState::SelectDevices);
}

#[test]
fn select_hash_shows_digest_of_loaded_image() {
    let mut app = App::new();
    assert!(app.select_hash(1));
    assert_eq!(app.content.image_view.hash_label, "");
    assert!(app.load_image("abc.img".to_string(), b"abc".to_vec()));
    assert_eq!(app.content.image_view.image_path, "abc.img");
    assert!(app.select_hash(0));
    assert_eq!(
        app.content.image_view.hash_label,
        "ba7816bf8f01cfea414140de5dae2223b00361a396177a9cb410ff61f20015ad"
    );
    assert!(app.select_hash(2));
    assert_eq!(app.content.image_view.hash_label, digest_text(HashKind::Md5, b"abc"));
    assert!(!app.select_hash(3));
    assert_eq!(app.content.image_view.hash, 2);
}

#[test]
fn load_image_only_on_image_page() {
    let mut app = at_devices(&["/dev/sdb"]);
    assert!(!app.load_image("other.img".to_string(), vec![1u8]));
    assert_eq!(app.image.as_ref().unwrap().len(), 16);
}

#[test]
fn populate_only_on_device_page() {
    let mut app = App::new();
    assert!(!app.populate_devices(ids(&["/dev/sdb"])));
    assert!(app.content.devices_view.catalog.entries.is_empty());
}

#[test]
fn fresh_pages() {
    let content = Content::new();
    assert_eq!(content.visible, WizardState::ChooseImage);
    let image = ImageView::new();
    assert_eq!(image.topic, "Choose an image");
    assert_eq!(image.chooser, "Choose Image");
    assert_eq!(image.hash, 0);
    assert_eq!(image.hash_label, "");
    let devices = DevicesView::new();
    assert_eq!(devices.topic, "Select drives");
    assert_eq!(devices.description, "Flashing will erase all data on the selected drives.");
    assert!(devices.catalog.entries.is_empty());
}
