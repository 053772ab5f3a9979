use libvnc::client::config::ClientConfig;
use libvnc::client::ClientSetup;
use libvnc::server::config::ServerConfig;
use libvnc::server::ServerSetup;

#[test]
fn client_setup_takes_config_host_and_port() {
    let s = ClientSetup::new(&ClientConfig::new(8, 3, 4), "127.0.0.1".to_string(), 5900).unwrap();
    assert_eq!((s.bits_per_sample, s.samples_per_pixel, s.bytes_per_pixel), (8, 3, 4));
    assert_eq!(s.server_host, "127.0.0.1");
    assert_eq!(s.server_port, 5900);
    let s = ClientSetup::new(&ClientConfig::default(), "::1".to_string(), u16::MAX).unwrap();
    assert_eq!(s.server_port, 65535);
}

#[test]
fn client_setup_refuses_nul_in_host() {
    assert!(ClientSetup::new(&ClientConfig::default(), "127.0.0.1\0".to_string(), 5900).is_none());
}

#[test]
fn server_setup_from_default_config() {
    let args = vec!["server".to_string(), "-alwaysshared".to_string()];
    let s = ServerSetup::new(ServerConfig::default(), "127.0.0.1".to_string(), 5900, args).unwrap();
    assert_eq!((s.width, s.height), (400, 300));
    assert_eq!((s.bits_per_sample, s.samples_per_pixel, s.bytes_per_pixel), (8, 3, 4));
    assert_eq!(s.frame_buffer.len(), 480000);
    assert!(s.frame_buffer.iter().all(|b| *b == 0));
    assert_eq!(s.http_dir, "127.0.0.1");
    assert_eq!(s.port, 5900);
    assert_eq!(s.argv.get_argc(), 2);
    assert_eq!(s.argv.get_argv0(), Some("server".to_string()));
}

#[test]
fn server_setup_refuses_bad_inputs() {
    let ok_args = || vec!["server".to_string()];
    assert!(ServerSetup::new(ServerConfig::default(), "h\0".to_string(), 5900, ok_args()).is_none());
    assert!(ServerSetup::new(
        ServerConfig::default(),
        "127.0.0.1".to_string(),
        5900,
        vec!["a\0".to_string()]
    )
    .is_none());
    assert!(ServerSetup::new(
        ServerConfig::new(100000, 100000, 8, 3, 4),
        "127.0.0.1".to_string(),
        5900,
        ok_args()
    )
    .is_none());
    assert!(ServerSetup::new(
        ServerConfig::new(-400, 300, 8, 3, 4),
        "127.0.0.1".to_string(),
        5900,
        ok_args()
    )
    .is_none());
}

#[test]
fn server_setup_empty_screen() {
    let s = ServerSetup::new(ServerConfig::new(0, 0, 8, 3, 4), String::new(), 0, Vec::new()).unwrap();
    assert!(s.frame_buffer.is_empty());
    assert_eq!(s.argv.get_argc(), 0);
    assert_eq!(s.port, 0);
}
