use verge::platform::rotating_log::{append_step, archive, rotation, AppendStep, ARCHIVES, FILE_BYTES};

#[test]
fn writes_fill_the_file_then_rotate() {
    assert_eq!(append_step(0, 10, 4), AppendStep { trim_to_tail: false, rotate: false, take: 4 });
    assert_eq!(append_step(8, 10, 4), AppendStep { trim_to_tail: false, rotate: false, take: 2 });
    assert_eq!(append_step(10, 10, 4), AppendStep { trim_to_tail: false, rotate: true, take: 4 });
    assert_eq!(append_step(10, 10, 0), AppendStep { trim_to_tail: false, rotate: false, take: 0 });
    assert_eq!(append_step(25, 10, 0), AppendStep { trim_to_tail: true, rotate: false, take: 0 });
    assert_eq!(append_step(25, 10, 30), AppendStep { trim_to_tail: true, rotate: true, take: 10 });
    assert_eq!(FILE_BYTES, 2 * 1024 * 1024);
    assert_eq!(ARCHIVES, 3);
}

#[test]
fn rotation_shifts_archives_up() {
    assert_eq!(archive("/tmp/verge.log", 2), "/tmp/verge.log.2");
    assert_eq!(
        rotation("/tmp/verge.log"),
        [
            ("/tmp/verge.log.2".to_string(), "/tmp/verge.log.3".to_string()),
            ("/tmp/verge.log.1".to_string(), "/tmp/verge.log.2".to_string()),
            ("/tmp/verge.log".to_string(), "/tmp/verge.log.1".to_string()),
        ]
    );
}
