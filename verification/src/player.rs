//! The player: the queue of songs still to play, whether playback is
//! paused, and the directory it serves music from.
//!
//! The audio itself goes through a `rodio::Sink` that the program owns. The
//! player decides, and the program carries the decision out on the sink:
//! which song to hand to the sink next, and whether to pause or resume it.
//! The sink starts playing and is paused or resumed only on these decisions,
//! so the player's `paused` is the sink's.

use vstd::prelude::*;

use ignore::types::Types;

use crate::file_explorer::{collect_files, listed_files, WalkEntry, WalkPlan};
use crate::path::{spec_join, spec_starts_with, FsPath};

verus! {

/// What the sink is to do.
#[derive(Debug, Clone, Copy, PartialEq, Eq, Structural)]
pub enum SinkCommand {
    Play,
    Pause,
}

/// The player as the contracts speak of it.
pub struct PlayerState {
    /// The songs still to play, first to last.
    pub queue: Seq<Seq<Seq<char>>>,
    /// Whether playback is paused.
    pub paused: bool,
    /// The directory the player serves music from, as it was given.
    pub base_dir: Seq<Seq<char>>,
    /// The canonical form of the base directory (absolute, links, `.` and
    /// `..` resolved), against which listings are checked.
    pub canonical_base: Seq<Seq<char>>,
}

/// The player after one idle tick, and the song to hand to the sink then,
/// if any: when playback runs, the sink has nothing left (`sink_len` is the
/// number of sounds it holds) and songs wait, the first of them goes.
pub open spec fn idle_step(s: PlayerState, sink_len: nat) -> (PlayerState, Option<Seq<Seq<char>>>) {
    if !s.paused && s.queue.len() > 0 && sink_len == 0 {
        (PlayerState { queue: s.queue.drop_first(), ..s }, Some(s.queue[0]))
    } else {
        (s, None)
    }
}

/// The player after the play/pause toggle, and what the sink is to do.
pub open spec fn toggle_step(s: PlayerState) -> (PlayerState, SinkCommand) {
    if s.paused {
        (PlayerState { paused: false, ..s }, SinkCommand::Play)
    } else {
        (PlayerState { paused: true, ..s }, SinkCommand::Pause)
    }
}

/// The player after a skip: the first waiting song leaves the queue, to be
/// handed to the sink.
pub open spec fn skip_step(s: PlayerState) -> PlayerState {
    PlayerState { queue: s.queue.drop_first(), ..s }
}

/// What can happen to the player: an idle tick or a skip at which the sink
/// holds `sink_len` sounds, a resume, a pause, or the play/pause toggle.
pub enum PlayerEvent {
    Idle { sink_len: nat },
    Skip { sink_len: nat },
    Play,
    Pause,
    Toggle,
}

/// The player after one event, and the song handed to the sink then, if
/// any. (A skip needs a waiting song; with none, it is taken to do nothing.)
pub open spec fn event_step(s: PlayerState, e: PlayerEvent) -> (PlayerState, Option<Seq<Seq<char>>>) {
    match e {
        PlayerEvent::Idle { sink_len } => idle_step(s, sink_len),
        PlayerEvent::Skip { .. } => if s.queue.len() > 0 {
            (skip_step(s), Some(s.queue[0]))
        } else {
            (s, None)
        },
        PlayerEvent::Play => (PlayerState { paused: false, ..s }, None),
        PlayerEvent::Pause => (PlayerState { paused: true, ..s }, None),
        PlayerEvent::Toggle => (toggle_step(s).0, None),
    }
}

/// The player after a run of events, and the songs handed to the sink
/// during the run, in order.
pub open spec fn event_run(s: PlayerState, events: Seq<PlayerEvent>) -> (PlayerState, Seq<Seq<Seq<char>>>)
    decreases events.len(),
{
    if events.len() == 0 {
        (s, Seq::empty())
    } else {
        let (mid, played) = event_run(s, events.drop_last());
        let (next, song) = event_step(mid, events.last());
        match song {
            Some(p) => (next, played.push(p)),
            None => (next, played),
        }
    }
}

/// The view of a song that may be absent.
pub open spec fn opt_view(o: Option<FsPath>) -> Option<Seq<Seq<char>>> {
    match o {
        Some(p) => Some(p@),
        None => None,
    }
}

/// The music player.
pub struct Player {
    queue: std::collections::VecDeque<FsPath>,
    paused: bool,
    base_dir: FsPath,
    canonical_base: FsPath,
}

impl View for Player {
    type V = PlayerState;

    closed spec fn view(&self) -> PlayerState {
        PlayerState {
            queue: self.queue@.map_values(|p: FsPath| p@),
            paused: self.paused,
            base_dir: self.base_dir@,
            canonical_base: self.canonical_base@,
        }
    }
}

impl Player {
    /// A player serving `base_dir`, whose canonical form is
    /// `canonical_base`, and whose queue holds the files that the walk of the
    /// base directory found, in the order found; playback runs.
    pub fn new(base_dir: FsPath, canonical_base: FsPath, found: &Vec<Option<WalkEntry>>) -> (p: Player)
        ensures
            p@.queue == listed_files(found@),
            !p@.paused,
            p@.base_dir == base_dir@,
            p@.canonical_base == canonical_base@,
    {
        let files = collect_files(found);
        let mut queue: std::collections::VecDeque<FsPath> = std::collections::VecDeque::new();
        let mut i: usize = 0;
        while i < files.len()
            invariant
                i <= files@.len(),
                queue@.map_values(|p: FsPath| p@) == files@.map_values(|p: FsPath| p@).take(
                    i as int,
                ),
            decreases files@.len() - i,
        {
            let ghost before = queue@;
            let item = files[i].clone();
            queue.push_back(item);
            assert(queue@ == before.push(item));
            assert(queue@.map_values(|p: FsPath| p@) =~= before.map_values(|p: FsPath| p@).push(
                item@,
            ));
            assert(queue@.map_values(|p: FsPath| p@) =~= files@.map_values(|p: FsPath| p@).take(
                i + 1,
            ));
            i = i + 1;
        }
        assert(files@.map_values(|p: FsPath| p@).take(files@.len() as int) =~= files@.map_values(
            |p: FsPath| p@,
        ));
        Player { queue, paused: false, base_dir, canonical_base }
    }

    /// The number of songs still to play.
    pub fn queue_len(&self) -> (n: usize)
        ensures
            n == self@.queue.len(),
    {
        self.queue.len()
    }

    /// The `i`-th song still to play, counting from 0.
    pub fn queued(&self, i: usize) -> (p: &FsPath)
        requires
            i < self@.queue.len(),
        ensures
            p@ == self@.queue[i as int],
    {
        &self.queue[i]
    }

    /// Whether playback is paused.
    pub fn is_paused(&self) -> (b: bool)
        ensures
            b == self@.paused,
    {
        self.paused
    }

    /// The directory the player serves music from.
    pub fn base_dir(&self) -> (d: &FsPath)
        ensures
            d@ == self@.base_dir,
    {
        &self.base_dir
    }

    /// The canonical form of the directory the player serves music from.
    pub fn canonical_base(&self) -> (d: &FsPath)
        ensures
            d@ == self@.canonical_base,
    {
        &self.canonical_base
    }

    /// One idle tick, where the sink holds `sink_len` sounds. When playback
    /// runs, the sink is empty and songs wait, the first of them leaves the
    /// queue and is returned, for the program to hand to the sink; otherwise
    /// nothing changes.
    pub fn handle_idle(&mut self, sink_len: usize) -> (song: Option<FsPath>)
        ensures
            (final(self)@, opt_view(song)) == idle_step(old(self)@, sink_len as nat),
            final(self)@.paused == old(self)@.paused,
            song is Some <==> (!old(self)@.paused && old(self)@.queue.len() > 0 && sink_len == 0),
            song matches Some(p) ==> p@ == old(self)@.queue[0],
    {
        if self.paused {
            return None;
        }
        if self.queue.len() == 0 {
            return None;
        }
        if sink_len != 0 {
            return None;
        }
        let ghost q = self.queue@;
        let file_path = self.queue.pop_front();
        match file_path {
            Some(p) => {
                assert(self.queue@.map_values(|x: FsPath| x@) =~= q.map_values(
                    |x: FsPath| x@,
                ).drop_first());
                Some(p)
            },
            None => None,
        }
    }

    /// Whether the server is to end, at an idle tick where the sink holds
    /// `sink_len` sounds: it ends once no song waits and the sink has played
    /// everything, unless it runs as a daemon.
    pub fn should_stop(&self, sink_len: usize, daemon: bool) -> (b: bool)
        ensures
            b == (!daemon && self@.queue.len() == 0 && sink_len == 0),
    {
        !daemon && self.queue.len() == 0 && sink_len == 0
    }

    /// The path of `path` under the base directory, which the program is to
    /// resolve to a canonical path before listing it.
    pub fn search_path(&self, path: &FsPath) -> (r: FsPath)
        ensures
            r@ == spec_join(self@.base_dir, path@),
    {
        self.base_dir.join(path)
    }

    /// The plan to list the music under `search_path`, the canonical form of
    /// a `search_path` result, which must lie under the canonical base
    /// directory (a path outside it is refused before this call).
    pub fn get_files(&self, search_path: FsPath, types: Types) -> (plan: WalkPlan)
        requires
            spec_starts_with(search_path@, self@.canonical_base),
        ensures
            plan.root@ == search_path@,
            plan.types == types,
    {
        WalkPlan { root: search_path, types }
    }

    /// Resume playback.
    pub fn play(&mut self)
        ensures
            final(self)@ == (PlayerState { paused: false, ..old(self)@ }),
    {
        self.paused = false;
    }

    /// Pause playback.
    pub fn pause(&mut self)
        ensures
            final(self)@ == (PlayerState { paused: true, ..old(self)@ }),
    {
        self.paused = true;
    }

    /// Resume playback if paused, pause it otherwise; returns what the sink
    /// is to do.
    pub fn play_pause(&mut self) -> (c: SinkCommand)
        ensures
            (final(self)@, c) == toggle_step(old(self)@),
            final(self)@.paused == !old(self)@.paused,
            (c == SinkCommand::Play) <==> old(self)@.paused,
    {
        if self.paused {
            self.paused = false;
            SinkCommand::Play
        } else {
            self.paused = true;
            SinkCommand::Pause
        }
    }

    /// Skip the current song, where the sink holds `sink_len` sounds: the
    /// first waiting song leaves the queue and is returned, for the program
    /// to hand to the sink; with it comes whether the program is then to
    /// skip the sound playing now, which it is exactly when the sink held
    /// one (so a song handed to an empty sink is played, not skipped).
    pub fn skip_song(&mut self, sink_len: usize) -> (r: (FsPath, bool))
        requires
            old(self)@.queue.len() > 0,
        ensures
            r.0@ == old(self)@.queue[0],
            r.1 == (sink_len > 0),
            final(self)@ == skip_step(old(self)@),
            final(self)@.paused == old(self)@.paused,
            final(self)@.queue == old(self)@.queue.subrange(1, old(self)@.queue.len() as int),
    {
        let ghost q = self.queue@;
        let file_path = self.queue.pop_front();
        assert(self.queue@.map_values(|x: FsPath| x@) =~= q.map_values(|x: FsPath| x@).drop_first());
        (file_path.unwrap(), sink_len > 0)
    }
}

/// Toggling twice gives back the player as it was, and the sink is told
/// the two opposite things.
pub proof fn lemma_toggle_twice(s: PlayerState)
    ensures
        toggle_step(toggle_step(s).0).0 == s,
        toggle_step(toggle_step(s).0).1 != toggle_step(s).1,
{
}

/// Whatever happens to the player, songs leave the queue in queue order,
/// each handed to the sink once: the songs handed to the sink followed by
/// those still waiting are the queue at the start; the base directory stays.
/// (A skip has the sink skip the sound playing only when there is one, so a
/// song handed to an empty sink is not skipped.)
pub proof fn lemma_event_run_keeps_order(s: PlayerState, events: Seq<PlayerEvent>)
    ensures
        event_run(s, events).1 + event_run(s, events).0.queue == s.queue,
        event_run(s, events).0.base_dir == s.base_dir,
        event_run(s, events).0.canonical_base == s.canonical_base,
    decreases events.len(),
{
    if events.len() > 0 {
        lemma_event_run_keeps_order(s, events.drop_last());
        let (mid, played) = event_run(s, events.drop_last());
        let (next, song) = event_step(mid, events.last());
        if song is Some {
            assert(played.push(mid.queue[0]) + mid.queue.drop_first() =~= played + mid.queue);
        }
    }
}

/// A paused player never hands a song to the sink, however long it idles.
pub proof fn lemma_paused_idle_is_still(s: PlayerState, events: Seq<PlayerEvent>)
    requires
        s.paused,
        forall|i: int| 0 <= i < events.len() ==> #[trigger] events[i] is Idle,
    ensures
        event_run(s, events).0 == s,
        event_run(s, events).1 == Seq::<Seq<Seq<char>>>::empty(),
    decreases events.len(),
{
    if events.len() > 0 {
        assert(events.drop_last().len() == events.len() - 1);
        assert forall|i: int| 0 <= i < events.drop_last().len() implies #[trigger] events.drop_last()[i] is Idle by {
            assert(events.drop_last()[i] == events[i]);
        }
        lemma_paused_idle_is_still(s, events.drop_last());
        assert(events.last() is Idle);
    }
}

/// A skip takes the first waiting song off the queue and changes nothing
/// else: playback stays paused or running as it was, and the directories
/// stay.
pub proof fn lemma_skip_keeps_playback(s: PlayerState)
    requires
        s.queue.len() > 0,
    ensures
        skip_step(s).paused == s.paused,
        skip_step(s).queue == s.queue.subrange(1, s.queue.len() as int),
        skip_step(s).base_dir == s.base_dir,
        skip_step(s).canonical_base == s.canonical_base,
{
}

/// An idle tick never pauses or resumes, and hands over a song exactly when
/// playback runs, songs wait and the sink is empty; the song is then the
/// first that waited, and the rest wait in order.
pub proof fn lemma_idle_step(s: PlayerState, sink_len: nat)
    ensures
        idle_step(s, sink_len).0.paused == s.paused,
        idle_step(s, sink_len).0.base_dir == s.base_dir,
        idle_step(s, sink_len).0.canonical_base == s.canonical_base,
        idle_step(s, sink_len).1 is Some <==> (!s.paused && s.queue.len() > 0 && sink_len == 0),
        idle_step(s, sink_len).1 is Some ==> idle_step(s, sink_len).1->0 == s.queue[0]
            && idle_step(s, sink_len).0.queue == s.queue.subrange(1, s.queue.len() as int),
        idle_step(s, sink_len).1 is None ==> idle_step(s, sink_len).0 == s,
{
    if idle_step(s, sink_len).1 is Some {
        assert(s.queue.drop_first() =~= s.queue.subrange(1, s.queue.len() as int));
    }
}

/// The toggle flips the paused flag and nothing else, and tells the sink to
/// play exactly when playback was paused.
pub proof fn lemma_toggle_flips(s: PlayerState)
    ensures
        toggle_step(s).0.paused == !s.paused,
        toggle_step(s).0.queue == s.queue,
        toggle_step(s).0.base_dir == s.base_dir,
        toggle_step(s).0.canonical_base == s.canonical_base,
        (toggle_step(s).1 == SinkCommand::Play) <==> s.paused,
        (toggle_step(s).1 == SinkCommand::Pause) <==> !s.paused,
{
}

/// Only resuming, pausing and the toggle change whether playback is paused:
/// over any run of idle ticks and skips, it stays as it was.
pub proof fn lemma_only_transport_changes_paused(s: PlayerState, events: Seq<PlayerEvent>)
    requires
        forall|i: int|
            0 <= i < events.len() ==> (#[trigger] events[i] is Idle || events[i] is Skip),
    ensures
        event_run(s, events).0.paused == s.paused,
    decreases events.len(),
{
    if events.len() > 0 {
        assert forall|i: int| 0 <= i < events.drop_last().len() implies (
        #[trigger] events.drop_last()[i] is Idle || events.drop_last()[i] is Skip) by {
            assert(events.drop_last()[i] == events[i]);
        }
        lemma_only_transport_changes_paused(s, events.drop_last());
        assert(events[events.len() - 1] is Idle || events[events.len() - 1] is Skip);
    }
}

} // verus!
