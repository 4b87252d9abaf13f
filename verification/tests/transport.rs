use procwire_client::transport::{mix_seed, unix_pipe_path, windows_pipe_path, SEED_MULTIPLIER};

#[test]
fn test_unix_pipe_path_format() {
    assert_eq!(unix_pipe_path(1234, 0xdeadbeef), "/tmp/procwire-1234-deadbeef.sock");
    assert_eq!(unix_pipe_path(0, 0), "/tmp/procwire-0-0.sock");
    let path = unix_pipe_path(42, u64::MAX);
    assert!(path.starts_with("/tmp/procwire-"));
    assert!(path.ends_with(".sock"));
    assert!(path.contains("42"));
}

#[test]
fn test_windows_pipe_path_format() {
    assert_eq!(windows_pipe_path(7, 255), r"\\.\pipe\procwire-7-ff");
}

#[test]
fn test_mix_seed() {
    assert_eq!(mix_seed(0, 5), 5);
    assert_eq!(mix_seed(1, 0), SEED_MULTIPLIER);
    assert_eq!(mix_seed(2, 1), SEED_MULTIPLIER.wrapping_mul(2) ^ 1);
    assert_ne!(mix_seed(1, 0), mix_seed(2, 0));
}
