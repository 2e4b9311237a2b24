//! The client: which call a command becomes, and where the server is.

use vstd::prelude::*;

use crate::configuration::{loopback_text, Commands, ServerAddress};
use crate::path::FsPath;

verus! {

/// The calls of the player's gRPC service.
#[derive(Debug, Clone, PartialEq, Eq)]
pub enum RpcCall {
    Ping,
    Play,
    Pause,
    PlayPause,
    SkipSong,
    GetFiles { path: FsPath },
}

/// Whether a client can send `command` at all: `set` is not implemented.
pub open spec fn client_accepts(command: Commands) -> bool {
    !(command is SetValue)
}

/// The call that a command given to a client becomes; `start` becomes none,
/// as it does not apply to a client.
pub open spec fn spec_client_call(command: Commands) -> Option<RpcCall> {
    match command {
        Commands::Play => Some(RpcCall::Play),
        Commands::Pause => Some(RpcCall::Pause),
        Commands::PlayPause => Some(RpcCall::PlayPause),
        Commands::SkipSong => Some(RpcCall::SkipSong),
        Commands::GetFiles { path } => Some(RpcCall::GetFiles { path }),
        Commands::Ping => Some(RpcCall::Ping),
        _ => None,
    }
}

/// The call to send for `command`, or none when the command does not apply
/// to a client (`start`).
pub fn client_call(command: Commands) -> (call: Option<RpcCall>)
    requires
        client_accepts(command),
    ensures
        call == spec_client_call(command),
{
    match command {
        Commands::Play => Some(RpcCall::Play),
        Commands::Pause => Some(RpcCall::Pause),
        Commands::PlayPause => Some(RpcCall::PlayPause),
        Commands::SkipSong => Some(RpcCall::SkipSong),
        Commands::GetFiles { path } => Some(RpcCall::GetFiles { path }),
        Commands::Ping => Some(RpcCall::Ping),
        _ => None,
    }
}

/// The URI of a server at the address `[::1]:port`.
pub open spec fn endpoint_uri(port: u16) -> Seq<char> {
    seq!['h', 't', 't', 'p', ':', '/', '/'] + loopback_text(port)
}

/// A client of the player's server.
#[derive(Debug)]
pub struct GRPCClient {
    address: ServerAddress,
}

impl GRPCClient {
    /// A client of the server at `address`.
    pub fn new(address: ServerAddress) -> (c: GRPCClient)
        ensures
            c.address() == address,
    {
        GRPCClient { address }
    }

    /// The address of the server.
    pub closed spec fn address(&self) -> ServerAddress {
        self.address
    }

    /// The address of the server.
    pub fn server_address(&self) -> (a: ServerAddress)
        ensures
            a == self.address(),
    {
        self.address
    }

    /// The URI the client connects to: `http://` and the server's address.
    pub fn endpoint(&self) -> (uri: String)
        ensures
            uri@ == endpoint_uri(self.address().port),
    {
        let mut uri = String::from_str("http://");
        proof {
            reveal_strlit("http://");
        }
        let address = self.address.text();
        uri.append(address.as_str());
        assert(uri@ =~= endpoint_uri(self.address.port));
        uri
    }
}

/// Each command becomes the call of the same action: `play` the call
/// `Play`, `pause` the call `Pause`, and so on, `get-files` with the same
/// path; `start` becomes no call.
pub proof fn lemma_client_call_same_action(path: FsPath, base_path: FsPath, volume: u32, daemon: bool)
    ensures
        spec_client_call(Commands::Play) == Some(RpcCall::Play),
        spec_client_call(Commands::Pause) == Some(RpcCall::Pause),
        spec_client_call(Commands::PlayPause) == Some(RpcCall::PlayPause),
        spec_client_call(Commands::SkipSong) == Some(RpcCall::SkipSong),
        spec_client_call(Commands::Ping) == Some(RpcCall::Ping),
        spec_client_call(Commands::GetFiles { path }) == Some(RpcCall::GetFiles { path }),
        spec_client_call(Commands::Start { base_path, volume, daemon }) == None::<RpcCall>,
{
}

/// The URI of the server is `http://` followed by the text of its address.
pub proof fn lemma_endpoint_uri_scheme(port: u16)
    ensures
        endpoint_uri(port).len() == 7 + loopback_text(port).len(),
        endpoint_uri(port).subrange(0, 7) == seq!['h', 't', 't', 'p', ':', '/', '/'],
        endpoint_uri(port).subrange(7, endpoint_uri(port).len() as int) == loopback_text(port),
{
    assert(endpoint_uri(port).subrange(0, 7) =~= seq!['h', 't', 't', 'p', ':', '/', '/']);
    assert(endpoint_uri(port).subrange(7, endpoint_uri(port).len() as int) =~= loopback_text(
        port,
    ));
}

} // verus!
