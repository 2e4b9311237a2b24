//! The program's configuration: the command given on the command line, the
//! address of the server, and whether this process serves or acts as a
//! client of a server that already listens there.

use vstd::prelude::*;

use crate::path::FsPath;

verus! {

/// The port the server listens on unless another is given.
pub const DEFAULT_PORT: u16 = 50051;

/// The bits (IEEE 754, single precision) of the volume multiplier 1.0, the
/// normal volume.
pub const NORMAL_VOLUME: u32 = 0x3f80_0000;

/// Whether this process serves the player or talks to a running one.
#[derive(Debug, Clone, Copy, PartialEq, Eq, Structural)]
pub enum ConfigMode {
    Server,
    Client,
}

/// The commands the program accepts.
#[derive(Debug, Clone, PartialEq, Eq)]
pub enum Commands {
    /// Start the gRPC server, scanning `base_path` for music; `volume` holds
    /// the bits (IEEE 754, single precision) of the factor each sample is
    /// multiplied by, 1.0 being the normal volume.
    /// With `daemon`, the server keeps running when the queue runs out;
    /// without it, it ends then.
    Start { base_path: FsPath, volume: u32, daemon: bool },
    /// Resume the playback.
    Play,
    /// Pause the playback.
    Pause,
    /// Resume the playback if paused, pause it if playing.
    PlayPause,
    /// Skip the current song.
    SkipSong,
    /// Set a value of the player (the `set` command); not implemented by the
    /// player.
    SetValue,
    /// List the available files under `path`, relative to the server's base
    /// path.
    GetFiles { path: FsPath },
    /// Test the server connection.
    Ping,
}

/// The decimal digits of `n`, most significant first, without leading
/// zeros.
pub open spec fn decimal_digits(n: nat) -> Seq<char>
    decreases n,
{
    if n < 10 {
        seq![digit_char(n)]
    } else {
        decimal_digits(n / 10) + seq![digit_char(n % 10)]
    }
}

/// The character of a decimal digit.
pub open spec fn digit_char(d: nat) -> char {
    if d == 0 { '0' }
    else if d == 1 { '1' }
    else if d == 2 { '2' }
    else if d == 3 { '3' }
    else if d == 4 { '4' }
    else if d == 5 { '5' }
    else if d == 6 { '6' }
    else if d == 7 { '7' }
    else if d == 8 { '8' }
    else { '9' }
}

/// The character of the decimal digit `d`, as text.
fn digit_text(d: u16) -> (t: &'static str)
    requires
        d < 10,
    ensures
        t@ == seq![digit_char(d as nat)],
{
    proof {
        reveal_strlit("0");
        reveal_strlit("1");
        reveal_strlit("2");
        reveal_strlit("3");
        reveal_strlit("4");
        reveal_strlit("5");
        reveal_strlit("6");
        reveal_strlit("7");
        reveal_strlit("8");
        reveal_strlit("9");
    }
    let t = if d == 0 { "0" }
    else if d == 1 { "1" }
    else if d == 2 { "2" }
    else if d == 3 { "3" }
    else if d == 4 { "4" }
    else if d == 5 { "5" }
    else if d == 6 { "6" }
    else if d == 7 { "7" }
    else if d == 8 { "8" }
    else { "9" };
    assert(t@ =~= seq![digit_char(d as nat)]);
    t
}

/// Appends `n` written in decimal to `s`, as `u16`'s `Display` writes it.
fn push_decimal(s: &mut String, n: u16)
    ensures
        final(s)@ == old(s)@ + decimal_digits(n as nat),
    decreases n,
{
    if n >= 10 {
        push_decimal(s, n / 10);
    }
    s.append(digit_text(n % 10));
    assert(s@ =~= old(s)@ + decimal_digits(n as nat));
}

/// The text of the IPv6 loopback address `[::1]` with a port appended.
pub open spec fn loopback_text(port: u16) -> Seq<char> {
    seq!['[', ':', ':', '1', ']', ':'] + decimal_digits(port as nat)
}

/// A TCP socket address on the IPv6 loopback interface `[::1]`.
#[derive(Debug, Clone, Copy, PartialEq, Eq, Structural)]
pub struct ServerAddress {
    pub port: u16,
}

impl ServerAddress {
    /// The address `[::1]:port`.
    pub fn loopback(port: u16) -> (a: ServerAddress)
        ensures
            a.port == port,
    {
        ServerAddress { port }
    }

    /// The address written as `[::1]:port`, the form that
    /// `std::net::SocketAddr` parses and displays.
    pub fn text(&self) -> (s: String)
        ensures
            s@ == loopback_text(self.port),
    {
        let mut s = String::from_str("[::1]:");
        proof {
            reveal_strlit("[::1]:");
        }
        push_decimal(&mut s, self.port);
        s
    }
}

/// The configuration of one run of the program.
#[derive(Debug)]
pub struct Config {
    pub command: Commands,
    pub address: ServerAddress,
    pub mode: ConfigMode,
    /// The bits (IEEE 754, single precision) of the volume multiplier.
    pub volume: u32,
}

impl Default for Config {
    /// Play on `[::1]:50051` as a server at normal volume.
    fn default() -> (c: Config)
        ensures
            c.command == Commands::Play,
            c.address.port == DEFAULT_PORT,
            c.mode == ConfigMode::Server,
            c.volume == NORMAL_VOLUME,
    {
        Config {
            command: Commands::Play,
            mode: ConfigMode::Server,
            address: ServerAddress::loopback(DEFAULT_PORT),
            volume: NORMAL_VOLUME,
        }
    }
}

/// The mode of a process whose address is, or is not, already taken: a
/// second process on the same socket becomes a client of the first.
pub open spec fn mode_for(socket_in_use: bool) -> ConfigMode {
    if socket_in_use {
        ConfigMode::Client
    } else {
        ConfigMode::Server
    }
}

impl Config {
    /// The configuration for `command` given on the command line with the
    /// port `port`, where `socket_in_use` tells whether `[::1]:port` is
    /// already bound by another process. The volume stays at its default.
    pub fn new(command: Commands, port: u16, socket_in_use: bool) -> (c: Config)
        ensures
            c.command == command,
            c.address.port == port,
            c.mode == mode_for(socket_in_use),
            c.volume == NORMAL_VOLUME,
    {
        let mut config = Self::default();
        config.address = ServerAddress::loopback(port);
        config.command = command;
        if socket_in_use {
            config.mode = ConfigMode::Client;
        } else {
            config.mode = ConfigMode::Server;
        }
        config
    }
}

/// The value of a numeral: its digits read in base ten.
pub open spec fn numeral_value(s: Seq<char>) -> int
    decreases s.len(),
{
    if s.len() == 0 {
        0
    } else {
        numeral_value(s.drop_last()) * 10 + (s.last() as int - '0' as int)
    }
}

/// The character of each digit `d` is the one `d` places after `0`.
pub proof fn lemma_digit_char_is_code(d: nat)
    requires
        d < 10,
    ensures
        digit_char(d) as int == '0' as int + d,
        '0' <= digit_char(d) <= '9',
{
}

/// The decimal text of `n` is a numeral, made of digits only, with no
/// leading zero unless it is `0`, that reads back as `n`.
pub proof fn lemma_decimal_digits_read_back(n: nat)
    ensures
        numeral_value(decimal_digits(n)) == n,
        decimal_digits(n).len() > 0,
        forall|i: int|
            0 <= i < decimal_digits(n).len() ==> '0' <= #[trigger] decimal_digits(n)[i] <= '9',
        decimal_digits(n).len() > 1 ==> decimal_digits(n)[0] != '0',
    decreases n,
{
    lemma_digit_char_is_code(n % 10);
    if n >= 10 {
        lemma_decimal_digits_read_back(n / 10);
        let s = decimal_digits(n);
        assert(s.drop_last() =~= decimal_digits(n / 10));
        assert(s.last() == digit_char(n % 10));
        assert(n == (n / 10) * 10 + n % 10);
        assert(numeral_value(s) == numeral_value(decimal_digits(n / 10)) * 10 + (digit_char(
            n % 10,
        ) as int - '0' as int));
        assert forall|i: int| 0 <= i < s.len() implies '0' <= #[trigger] s[i] <= '9' by {
            if i < s.len() - 1 {
                assert(s[i] == decimal_digits(n / 10)[i]);
            }
        }
        assert(s[0] == decimal_digits(n / 10)[0]);
        if n / 10 < 10 {
            assert(decimal_digits(n / 10) == seq![digit_char(n / 10)]);
            lemma_digit_char_is_code(n / 10);
        } else {
            lemma_decimal_digits_read_back(n / 10 / 10);
            assert(decimal_digits(n / 10).len() > 1);
        }
    } else {
        let s = decimal_digits(n);
        assert(s.drop_last() =~= Seq::<char>::empty());
        assert(numeral_value(Seq::<char>::empty()) == 0);
        assert(numeral_value(s) == 0 * 10 + (digit_char(n) as int - '0' as int));
    }
}

/// The text of the server's address is `[::1]:` followed by a numeral that
/// reads back as the port.
pub proof fn lemma_loopback_text_names_port(port: u16)
    ensures
        loopback_text(port).len() > 6,
        loopback_text(port).subrange(0, 6) == seq!['[', ':', ':', '1', ']', ':'],
        numeral_value(loopback_text(port).subrange(6, loopback_text(port).len() as int)) == port,
{
    lemma_decimal_digits_read_back(port as nat);
    let t = loopback_text(port);
    assert(t.subrange(0, 6) =~= seq!['[', ':', ':', '1', ']', ':']);
    assert(t.subrange(6, t.len() as int) =~= decimal_digits(port as nat));
}

/// A process whose socket is taken becomes a client; one whose socket is
/// free becomes the server.
pub proof fn lemma_mode_for(socket_in_use: bool)
    ensures
        mode_for(true) == ConfigMode::Client,
        mode_for(false) == ConfigMode::Server,
{
}

} // verus!
