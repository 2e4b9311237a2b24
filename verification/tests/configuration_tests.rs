use juno::configuration::{Commands, Config, ConfigMode, ServerAddress, DEFAULT_PORT, NORMAL_VOLUME};

#[test]
fn default_config_plays_as_server_on_default_port() {
    let c = Config::default();
    assert_eq!(c.command, Commands::Play);
    assert_eq!(c.mode, ConfigMode::Server);
    assert_eq!(c.address.port, 50051);
    assert_eq!(c.address.text(), "[::1]:50051");
    assert_eq!(f32::from_bits(c.volume), 1.0f32);
    assert_eq!(DEFAULT_PORT, 50051);
}

#[test]
fn second_instance_on_taken_socket_is_client() {
    let c = Config::new(Commands::Ping, 6000, true);
    assert_eq!(c.mode, ConfigMode::Client);
    assert_eq!(c.address, ServerAddress::loopback(6000));
    assert_eq!(c.command, Commands::Ping);
}

#[test]
fn first_instance_is_server() {
    let c = Config::new(Commands::Pause, 7, false);
    assert_eq!(c.mode, ConfigMode::Server);
    assert_eq!(c.address.text(), "[::1]:7");
    assert_eq!(c.volume, NORMAL_VOLUME);
}

#[test]
fn address_text_is_bracketed_loopback_with_decimal_port() {
    for port in [0u16, 9, 10, 443, 50051, 65535] {
        assert_eq!(ServerAddress::loopback(port).text(), format!("[::1]:{}", port));
    }
}

#[test]
fn new_keeps_default_volume_even_for_start() {
    let start = Commands::Start {
        base_path: juno::path::FsPath::new(vec![".".to_string()]),
        volume: 0.25f32.to_bits(),
        daemon: true,
    };
    let c = Config::new(start, 50051, false);
    assert_eq!(c.volume, NORMAL_VOLUME);
}
