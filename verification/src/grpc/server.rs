//! The server: which command an incoming call is forwarded to the player
//! as, and the answer it gives.

use vstd::prelude::*;

use crate::configuration::Commands;
use crate::grpc::client::{spec_client_call, RpcCall};
use crate::path::{path_text, FsPath};

verus! {

/// A command forwarded from the gRPC service to the player.
#[derive(Debug)]
pub struct GrpcServerMessage {
    pub command: Commands,
}

/// The message of the answer to a ping.
pub const PONG: &'static str = "pong!";

/// The message of the answer to a call that could not be forwarded.
pub const INTERNAL_ERROR: &'static str = "An internal error has occurred.";

/// The answer of the server to a call.
#[derive(Debug, PartialEq, Eq)]
pub enum RpcReply {
    /// The answer to a ping, with its message.
    Pong { message: String },
    /// The empty answer of a command that was carried out.
    Done,
    /// The files found.
    Files { files: Vec<String> },
    /// The call failed: the status `internal` with its message.
    Internal { message: String },
}

/// The command a call is forwarded to the player as; a ping is answered by
/// the service itself.
pub open spec fn spec_forwarded_command(call: RpcCall) -> Option<Commands> {
    match call {
        RpcCall::Ping => None,
        RpcCall::Play => Some(Commands::Play),
        RpcCall::Pause => Some(Commands::Pause),
        RpcCall::PlayPause => Some(Commands::PlayPause),
        RpcCall::SkipSong => Some(Commands::SkipSong),
        RpcCall::GetFiles { path } => Some(Commands::GetFiles { path }),
    }
}

/// The command to forward to the player for `call`, none for a ping.
pub fn forwarded_command(call: RpcCall) -> (c: Option<GrpcServerMessage>)
    ensures
        match spec_forwarded_command(call) {
            Some(command) => c matches Some(m) && m.command == command,
            None => c is None,
        },
{
    match call {
        RpcCall::Ping => None,
        RpcCall::Play => Some(GrpcServerMessage { command: Commands::Play }),
        RpcCall::Pause => Some(GrpcServerMessage { command: Commands::Pause }),
        RpcCall::PlayPause => Some(GrpcServerMessage { command: Commands::PlayPause }),
        RpcCall::SkipSong => Some(GrpcServerMessage { command: Commands::SkipSong }),
        RpcCall::GetFiles { path } => Some(GrpcServerMessage { command: Commands::GetFiles { path } }),
    }
}

/// The texts of `files`, in order.
fn listing_texts(files: &Vec<FsPath>) -> (texts: Vec<String>)
    ensures
        texts@.len() == files@.len(),
        forall|i: int| 0 <= i < files@.len() ==> (#[trigger] texts@[i])@ == path_text(files@[i]@),
{
    let mut texts: Vec<String> = Vec::new();
    let mut i: usize = 0;
    while i < files.len()
        invariant
            i <= files@.len(),
            texts@.len() == i,
            forall|j: int| 0 <= j < i ==> (#[trigger] texts@[j])@ == path_text(files@[j]@),
        decreases files@.len() - i,
    {
        texts.push(files[i].text());
        i = i + 1;
    }
    texts
}

/// The failure an answer of the player reports, if any: a command that did
/// not get through fails with the `internal` message; one the player
/// carried out and failed with `e` reports `e`.
pub open spec fn answer_failure(answer: Option<Result<Vec<FsPath>, String>>) -> Option<Seq<char>> {
    match answer {
        None => Some(INTERNAL_ERROR@),
        Some(Err(e)) => Some(e@),
        Some(Ok(_)) => None,
    }
}

/// The files a successful answer of the player lists.
pub open spec fn answer_files(answer: Option<Result<Vec<FsPath>, String>>) -> Option<Seq<FsPath>> {
    match answer {
        Some(Ok(files)) => Some(files@),
        _ => None,
    }
}

/// The answer to `call`, where `answer` is what the player answered to its
/// command (the files it listed, none for the other commands, or the error
/// it met), or `None` when the command did not get through. A ping is
/// always answered `pong!`; a failure is answered with the status
/// `internal` and its message; `get_files` gets the texts of the files the
/// player listed, in order; the others get the empty answer.
pub fn call_reply(call: &RpcCall, answer: Option<Result<Vec<FsPath>, String>>) -> (r: RpcReply)
    ensures
        match r {
            RpcReply::Pong { message } => call is Ping && message@ == PONG@,
            RpcReply::Internal { message } => !(call is Ping) && answer_failure(answer) == Some(
                message@,
            ),
            RpcReply::Files { files } => call is GetFiles && answer_files(answer) is Some
                && files@.len() == answer_files(answer)->0.len() && forall|i: int|
                0 <= i < files@.len() ==> (#[trigger] files@[i])@ == path_text(
                    answer_files(answer)->0[i]@,
                ),
            RpcReply::Done => !(call is Ping) && !(call is GetFiles) && answer_failure(
                answer,
            ) is None,
        },
{
    match call {
        RpcCall::Ping => RpcReply::Pong { message: String::from_str(PONG) },
        _ => match answer {
            None => RpcReply::Internal { message: String::from_str(INTERNAL_ERROR) },
            Some(Err(e)) => RpcReply::Internal { message: e },
            Some(Ok(listed)) => match call {
                RpcCall::GetFiles { .. } => RpcReply::Files { files: listing_texts(&listed) },
                _ => RpcReply::Done,
            },
        },
    }
}

/// Each call is forwarded as the command of the same action: `play` as
/// `Play`, `pause` as `Pause`, `play_pause` as `PlayPause`, `skip_song` as
/// `SkipSong`, `get_files` as `GetFiles` with the same path; a ping is not
/// forwarded.
pub proof fn lemma_forwarded_command_same_action(path: FsPath)
    ensures
        spec_forwarded_command(RpcCall::Ping) == None::<Commands>,
        spec_forwarded_command(RpcCall::Play) == Some(Commands::Play),
        spec_forwarded_command(RpcCall::Pause) == Some(Commands::Pause),
        spec_forwarded_command(RpcCall::PlayPause) == Some(Commands::PlayPause),
        spec_forwarded_command(RpcCall::SkipSong) == Some(Commands::SkipSong),
        spec_forwarded_command(RpcCall::GetFiles { path }) == Some(Commands::GetFiles { path }),
{
}

/// A command given to a client reaches the player unchanged: the call the
/// client sends for it is forwarded by the server as that same command.
/// (Only `start` and `set` are not sent, and a ping is answered by the
/// server itself.)
pub proof fn lemma_client_command_reaches_player(command: Commands)
    requires
        !(command is Start),
        !(command is SetValue),
        !(command is Ping),
    ensures
        spec_client_call(command) is Some,
        spec_forwarded_command(spec_client_call(command)->0) == Some(command),
{
}

/// A command that did not get through fails with the `internal` message, a
/// player error fails with the player's message, and a success lists the
/// player's files; the messages read `pong!` and `An internal error has
/// occurred.`
pub proof fn lemma_answers(files: Vec<FsPath>, e: String)
    ensures
        answer_failure(None) == Some(INTERNAL_ERROR@),
        answer_failure(Some(Err(e))) == Some(e@),
        answer_failure(Some(Ok(files))) == None::<Seq<char>>,
        answer_files(Some(Ok(files))) == Some(files@),
        answer_files(Some(Err(e))) == None::<Seq<FsPath>>,
        answer_files(None) == None::<Seq<FsPath>>,
        PONG@ == seq!['p', 'o', 'n', 'g', '!'],
        INTERNAL_ERROR@ == seq![
            'A', 'n', ' ', 'i', 'n', 't', 'e', 'r', 'n', 'a', 'l', ' ', 'e', 'r', 'r', 'o', 'r',
            ' ', 'h', 'a', 's', ' ', 'o', 'c', 'c', 'u', 'r', 'r', 'e', 'd', '.',
        ],
{
    reveal_strlit("pong!");
    reveal_strlit("An internal error has occurred.");
    assert(PONG@ =~= seq!['p', 'o', 'n', 'g', '!']);
    assert(INTERNAL_ERROR@ =~= seq![
        'A', 'n', ' ', 'i', 'n', 't', 'e', 'r', 'n', 'a', 'l', ' ', 'e', 'r', 'r', 'o', 'r',
        ' ', 'h', 'a', 's', ' ', 'o', 'c', 'c', 'u', 'r', 'r', 'e', 'd', '.',
    ]);
}

} // verus!
