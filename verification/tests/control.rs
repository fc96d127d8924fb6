use icedburn::devices::select_device_path;
use icedburn::supervisor::{handle_command, BurnCommand, BurnConfig};

fn cfg() -> BurnConfig {
    BurnConfig {
        iso_path: String::from("/tmp/image.iso"),
        device_path: String::from("/dev/sdb"),
        verify: true,
    }
}

#[test]
fn start_clears_the_cancellation_flag() {
    let (flag, action) = handle_command(BurnCommand::Start(cfg()));
    assert!(!flag);
    let run = action.expect("start yields an operation to run");
    assert_eq!(run.iso_path, "/tmp/image.iso");
    assert_eq!(run.device_path, "/dev/sdb");
    assert!(run.verify);
}

#[test]
fn cancel_sets_the_flag_and_runs_nothing() {
    let (flag, action) = handle_command(BurnCommand::Cancel);
    assert!(flag);
    assert!(action.is_none());
}

/// A cancel issued before a start is invisible: it runs nothing, and the
/// start that follows begins with the flag cleared.
#[test]
fn cancel_before_start_has_no_effect() {
    let (flag, action) = handle_command(BurnCommand::Cancel);
    assert!(action.is_none());
    assert!(flag);
    let (flag, action) = handle_command(BurnCommand::Start(cfg()));
    assert!(!flag);
    assert!(action.is_some());
}

#[test]
fn whole_device_lines_are_selected() {
    let line = b"/dev/sda  931.5G Samsung SSD 870".to_vec();
    assert_eq!(select_device_path(&line), Some(b"/dev/sda".to_vec()));

    let line = b"   /dev/sdb 14.9G SanDisk Ultra".to_vec();
    assert_eq!(select_device_path(&line), Some(b"/dev/sdb".to_vec()));
}

#[test]
fn partition_lines_are_filtered_out() {
    let line = b"/dev/sda1 930G part".to_vec();
    assert_eq!(select_device_path(&line), None);

    let line = b"/dev/nvme0n1 1.8T WD Black".to_vec();
    assert_eq!(select_device_path(&line), None);
}

#[test]
fn lines_without_two_columns_are_ignored() {
    assert_eq!(select_device_path(&b"/dev/sdc".to_vec()), None);
    assert_eq!(select_device_path(&b"/dev/sdc   ".to_vec()), None);
    assert_eq!(select_device_path(&b"".to_vec()), None);
    assert_eq!(select_device_path(&b"   ".to_vec()), None);
}
