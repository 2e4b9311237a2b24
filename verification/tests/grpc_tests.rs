use juno::configuration::{Commands, ServerAddress, NORMAL_VOLUME};
use juno::control::{handle_message, player_settings, PlayerAction};
use juno::file_explorer::WalkEntry;
use juno::grpc::{is_socket_in_use, BindOutcome};
use juno::grpc::client::{client_call, GRPCClient, RpcCall};
use juno::grpc::server::{call_reply, forwarded_command, GrpcServerMessage, RpcReply};
use juno::path::FsPath;
use juno::player::{Player, SinkCommand};
use std::path::Path;

fn fs(text: &str) -> FsPath {
    FsPath::new(
        Path::new(text)
            .components()
            .map(|c| c.as_os_str().to_string_lossy().into_owned())
            .collect(),
    )
}

fn player() -> Player {
    let found = vec![
        Some(WalkEntry { path: fs("/music/a.mp3"), is_dir: false }),
        Some(WalkEntry { path: fs("/music/b.mp3"), is_dir: false }),
    ];
    Player::new(fs("/music"), fs("/music"), &found)
}

fn msg(command: Commands) -> GrpcServerMessage {
    GrpcServerMessage { command }
}

#[test]
fn client_endpoint_is_http_uri_of_address() {
    let client = GRPCClient::new(ServerAddress::loopback(50051));
    assert_eq!(client.endpoint(), "http://[::1]:50051");
    assert_eq!(client.server_address().port, 50051);
}

#[test]
fn client_calls_for_commands() {
    assert_eq!(client_call(Commands::Play), Some(RpcCall::Play));
    assert_eq!(client_call(Commands::Pause), Some(RpcCall::Pause));
    assert_eq!(client_call(Commands::PlayPause), Some(RpcCall::PlayPause));
    assert_eq!(client_call(Commands::SkipSong), Some(RpcCall::SkipSong));
    assert_eq!(client_call(Commands::Ping), Some(RpcCall::Ping));
    assert_eq!(
        client_call(Commands::GetFiles { path: fs("a") }),
        Some(RpcCall::GetFiles { path: fs("a") })
    );
    assert_eq!(
        client_call(Commands::Start { base_path: fs("."), volume: NORMAL_VOLUME, daemon: false }),
        None
    );
}

#[test]
fn server_forwards_calls_as_commands() {
    assert!(forwarded_command(RpcCall::Ping).is_none());
    assert_eq!(forwarded_command(RpcCall::Play).unwrap().command, Commands::Play);
    assert_eq!(
        forwarded_command(RpcCall::GetFiles { path: fs("x") }).unwrap().command,
        Commands::GetFiles { path: fs("x") }
    );
    assert_eq!(forwarded_command(RpcCall::SkipSong).unwrap().command, Commands::SkipSong);
}

#[test]
fn server_replies() {
    assert_eq!(
        call_reply(&RpcCall::Ping, None),
        RpcReply::Pong { message: "pong!".to_string() }
    );
    assert_eq!(call_reply(&RpcCall::Play, Some(Ok(vec![]))), RpcReply::Done);
    assert_eq!(
        call_reply(&RpcCall::Pause, None),
        RpcReply::Internal { message: "An internal error has occurred.".to_string() }
    );
    assert_eq!(
        call_reply(&RpcCall::GetFiles { path: fs("x") }, Some(Ok(vec![]))),
        RpcReply::Files { files: vec![] }
    );
    assert_eq!(
        call_reply(
            &RpcCall::GetFiles { path: fs("x") },
            Some(Ok(vec![fs("/music/x/a.mp3"), fs("rel/b.wav"), fs("./c.flac")]))
        ),
        RpcReply::Files {
            files: vec![
                "/music/x/a.mp3".to_string(),
                "rel/b.wav".to_string(),
                "./c.flac".to_string()
            ]
        }
    );
    assert_eq!(
        call_reply(&RpcCall::GetFiles { path: fs("x") }, None),
        RpcReply::Internal { message: "An internal error has occurred.".to_string() }
    );
}

#[test]
fn settings_come_from_start_command() {
    let start =
        Commands::Start { base_path: fs("/music"), volume: 0.5f32.to_bits(), daemon: true };
    let (base, volume, daemon) = player_settings(&start, fs("/home"));
    assert_eq!(base, fs("/music"));
    assert_eq!(f32::from_bits(volume), 0.5);
    assert!(daemon);
    let (base, volume, daemon) = player_settings(&Commands::Play, fs("/home"));
    assert!(!daemon);
    assert_eq!(base, fs("/home"));
    assert_eq!(f32::from_bits(volume), 1.0);
}

#[test]
fn handle_message_drives_player() {
    let mut p = player();
    match handle_message(&mut p, msg(Commands::Pause), 1) {
        PlayerAction::Sink { command } => assert_eq!(command, SinkCommand::Pause),
        other => panic!("{:?}", other),
    }
    assert!(p.is_paused());
    match handle_message(&mut p, msg(Commands::PlayPause), 1) {
        PlayerAction::Sink { command } => assert_eq!(command, SinkCommand::Play),
        other => panic!("{:?}", other),
    }
    assert!(!p.is_paused());
    match handle_message(&mut p, msg(Commands::Play), 1) {
        PlayerAction::Sink { command } => assert_eq!(command, SinkCommand::Play),
        other => panic!("{:?}", other),
    }
    match handle_message(&mut p, msg(Commands::SkipSong), 1) {
        PlayerAction::SkipTo { song, skip_current } => {
            assert_eq!(song, fs("/music/a.mp3"));
            assert!(skip_current);
        }
        other => panic!("{:?}", other),
    }
    assert_eq!(p.queue_len(), 1);
    match handle_message(&mut p, msg(Commands::GetFiles { path: fs("sub") }), 0) {
        PlayerAction::ListFiles { search_path } => assert_eq!(search_path, fs("/music/sub")),
        other => panic!("{:?}", other),
    }
    assert_eq!(p.queue_len(), 1);
}

#[test]
fn skip_on_empty_sink_does_not_skip_the_new_song() {
    let mut p = player();
    match handle_message(&mut p, msg(Commands::SkipSong), 0) {
        PlayerAction::SkipTo { song, skip_current } => {
            assert_eq!(song, fs("/music/a.mp3"));
            assert!(!skip_current);
        }
        other => panic!("{:?}", other),
    }
}

#[test]
fn socket_in_use_only_when_address_taken() {
    assert!(is_socket_in_use(BindOutcome::AddrInUse));
    assert!(!is_socket_in_use(BindOutcome::Bound));
    assert!(!is_socket_in_use(BindOutcome::Failed));
}

#[test]
fn failed_skip_is_answered_with_its_error() {
    assert_eq!(
        call_reply(&RpcCall::SkipSong, Some(Err("No such file or directory".to_string()))),
        RpcReply::Internal { message: "No such file or directory".to_string() }
    );
    assert_eq!(call_reply(&RpcCall::SkipSong, Some(Ok(vec![]))), RpcReply::Done);
    assert_eq!(
        call_reply(&RpcCall::Ping, Some(Err("x".to_string()))),
        RpcReply::Pong { message: "pong!".to_string() }
    );
}
