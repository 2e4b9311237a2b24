//! The server's decisions between the gRPC service and the player: which
//! settings the player starts with, and what a forwarded command does to the
//! player and asks of the program.

use vstd::prelude::*;

use crate::configuration::{Commands, NORMAL_VOLUME};
use crate::file_explorer::scan_base;
use crate::grpc::server::GrpcServerMessage;
use crate::path::{spec_join, FsPath};
use crate::player::{skip_step, toggle_step, Player, PlayerState, SinkCommand};

verus! {

/// The directory to serve, the volume bits to start the player with, and
/// whether the server runs as a daemon: those of a `start` command,
/// otherwise the current directory at normal volume, not as a daemon.
pub fn player_settings(command: &Commands, current_dir: FsPath) -> (r: (FsPath, u32, bool))
    ensures
        command matches Commands::Start { base_path, volume, daemon } ==> r.0@ == base_path@
            && r.1 == volume && r.2 == daemon,
        !(command is Start) ==> r.0@ == current_dir@ && r.1 == NORMAL_VOLUME && !r.2,
{
    let base_path = scan_base(command, current_dir);
    match command {
        Commands::Start { volume, daemon, .. } => (base_path, *volume, *daemon),
        _ => (base_path, NORMAL_VOLUME, false),
    }
}

/// What the program is to do after the player took a command.
#[derive(Debug)]
pub enum PlayerAction {
    /// Tell the sink this, then answer that the command was carried out.
    Sink { command: SinkCommand },
    /// Hand this song to the sink, then, if `skip_current`, skip the sound
    /// playing now; answer with the error if the song cannot be opened or
    /// decoded.
    SkipTo { song: FsPath, skip_current: bool },
    /// Resolve this path to its canonical form and list the music under it.
    ListFiles { search_path: FsPath },
}

/// The commands the player takes from the service.
pub open spec fn player_takes(command: Commands) -> bool {
    ||| command is Play
    ||| command is Pause
    ||| command is PlayPause
    ||| command is SkipSong
    ||| command is GetFiles
}

/// Apply a command forwarded by the service to the player, where the sink
/// holds `sink_len` sounds, and say what the program is to do for it.
/// Skipping needs a waiting song.
pub fn handle_message(player: &mut Player, message: GrpcServerMessage, sink_len: usize) -> (a: PlayerAction)
    requires
        player_takes(message.command),
        message.command is SkipSong ==> old(player)@.queue.len() > 0,
    ensures
        match message.command {
            Commands::Play => final(player)@ == (PlayerState { paused: false, ..old(player)@ })
                && a == (PlayerAction::Sink { command: SinkCommand::Play }),
            Commands::Pause => final(player)@ == (PlayerState { paused: true, ..old(player)@ })
                && a == (PlayerAction::Sink { command: SinkCommand::Pause }),
            Commands::PlayPause => a == (PlayerAction::Sink {
                command: toggle_step(old(player)@).1,
            }) && final(player)@ == toggle_step(old(player)@).0,
            Commands::SkipSong => final(player)@ == skip_step(old(player)@) && (a matches PlayerAction::SkipTo { song, skip_current } && song@ == old(player)@.queue[0] && skip_current == (sink_len > 0)),
            Commands::GetFiles { path } => final(player)@ == old(player)@ && (a matches PlayerAction::ListFiles { search_path } && search_path@ == spec_join(old(player)@.base_dir, path@)),
            _ => false,
        },
{
    match message.command {
        Commands::Play => {
            player.play();
            PlayerAction::Sink { command: SinkCommand::Play }
        },
        Commands::Pause => {
            player.pause();
            PlayerAction::Sink { command: SinkCommand::Pause }
        },
        Commands::PlayPause => {
            let command = player.play_pause();
            PlayerAction::Sink { command }
        },
        Commands::SkipSong => {
            let (song, skip_current) = player.skip_song(sink_len);
            PlayerAction::SkipTo { song, skip_current }
        },
        Commands::GetFiles { path } => {
            let search_path = player.search_path(&path);
            PlayerAction::ListFiles { search_path }
        },
        _ => {
            assert(false);
            PlayerAction::Sink { command: SinkCommand::Play }
        },
    }
}

} // verus!
