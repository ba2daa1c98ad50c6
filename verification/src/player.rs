//! The player's state and the commands that drive the external audio
//! process (mpv, with ffplay as a fallback) over its IPC socket.
use crate::text::{decimal, push_decimal};
use crate::tidal::{clock_text, push_clock};
use vstd::prelude::*;
use vstd::string::*;

verus! {

/// Nanoseconds in a second.
pub const NANOS_PER_SEC: u128 = 1_000_000_000;

/// The longest time a player can count, in nanoseconds: `u64::MAX` seconds
/// and 999 999 999 nanoseconds.
pub const ELAPSED_MAX: u128 = 18_446_744_073_709_551_615_999_999_999;

/// How many ticks pass between two queries of mpv's playback position.
pub const TICKS_PER_QUERY: u32 = 20;

/// Whether something plays, is paused, or nothing plays.
#[derive(Debug, Clone, Copy, PartialEq, Eq, Structural)]
pub enum PlayerState {
    Stopped,
    Playing,
    Paused,
}

/// What is known of the track that plays.
#[derive(Debug)]
pub struct TrackInfo {
    pub title: String,
    pub artist: String,
    pub album: String,
    pub duration: u64,
    pub bit_depth: u32,
    pub sample_rate: u32,
    pub codec: String,
}

/// A command to mpv over its IPC socket.
#[derive(Debug, Clone, Copy, PartialEq, Eq, Structural)]
pub enum MpvCommand {
    Quit,
    SetPause(bool),
    SetVolume(u8),
    SeekRelative(i64),
    SeekAbsolute(u64),
    GetTimePos,
}

/// `x` in decimal, with a minus sign when negative.
pub open spec fn signed_decimal(x: int) -> Seq<char> {
    if x < 0 {
        seq!['-'] + decimal((-x) as nat)
    } else {
        decimal(x as nat)
    }
}

/// The JSON line that carries a command to mpv, newline included.
pub open spec fn mpv_line(c: MpvCommand) -> Seq<char> {
    match c {
        MpvCommand::Quit => "{\"command\":[\"quit\"]}\n"@,
        MpvCommand::SetPause(p) => "{\"command\":[\"set_property\",\"pause\","@ + (if p {
            "true"@
        } else {
            "false"@
        }) + "]}\n"@,
        MpvCommand::SetVolume(v) => "{\"command\":[\"set_property\",\"volume\","@ + decimal(
            v as nat,
        ) + "]}\n"@,
        MpvCommand::SeekRelative(s) => "{\"command\":[\"seek\","@ + signed_decimal(s as int)
            + ",\"relative\"]}\n"@,
        MpvCommand::SeekAbsolute(s) => "{\"command\":[\"seek\","@ + decimal(s as nat)
            + ",\"absolute\"]}\n"@,
        MpvCommand::GetTimePos => "{\"command\":[\"get_property\",\"time-pos\"]}\n"@,
    }
}

fn push_signed_decimal(out: &mut String, x: i64)
    ensures
        final(out)@ == old(out)@ + signed_decimal(x as int),
{
    if x < 0 {
        proof {
            reveal_strlit("-");
        }
        out.append("-");
        let m: u64 = (0i128 - (x as i128)) as u64;
        push_decimal(out, m);
        assert(final(out)@ =~= old(out)@ + signed_decimal(x as int));
    } else {
        push_decimal(out, x as u64);
    }
}

impl MpvCommand {
    /// The JSON line that carries this command, newline included.
    pub fn line(&self) -> (s: String)
        ensures
            s@ == mpv_line(*self),
    {
        let mut s = String::new();
        match *self {
            MpvCommand::Quit => {
                s.append("{\"command\":[\"quit\"]}\n");
            },
            MpvCommand::SetPause(p) => {
                s.append("{\"command\":[\"set_property\",\"pause\",");
                if p {
                    s.append("true");
                } else {
                    s.append("false");
                }
                s.append("]}\n");
            },
            MpvCommand::SetVolume(v) => {
                s.append("{\"command\":[\"set_property\",\"volume\",");
                push_decimal(&mut s, v as u64);
                s.append("]}\n");
            },
            MpvCommand::SeekRelative(x) => {
                s.append("{\"command\":[\"seek\",");
                push_signed_decimal(&mut s, x);
                s.append(",\"relative\"]}\n");
            },
            MpvCommand::SeekAbsolute(x) => {
                s.append("{\"command\":[\"seek\",");
                push_decimal(&mut s, x);
                s.append(",\"absolute\"]}\n");
            },
            MpvCommand::GetTimePos => {
                s.append("{\"command\":[\"get_property\",\"time-pos\"]}\n");
            },
        }
        s
    }
}

/// Work for whoever runs the audio process.
#[derive(Debug)]
pub enum PlayerCommand {
    /// Write a command to mpv's socket.
    Send(MpvCommand),
    /// Remove a stale socket file, then start mpv on `url` at `volume` (or
    /// ffplay when mpv cannot start) and report the outcome to `launched`.
    Launch { url: String, volume: u8 },
    /// Kill the audio process.
    Kill,
    /// Remove mpv's socket file.
    RemoveSocket,
}

/// The state of the player; the audio process itself is run elsewhere, on
/// the commands queued in `commands`.
#[derive(Debug)]
pub struct Player {
    pub state: PlayerState,
    pub current: Option<TrackInfo>,
    pub volume: u8,
    /// Time played, in nanoseconds.
    pub elapsed_nanos: u128,
    /// Whether the wall clock counts the time played between ticks.
    pub clock_running: bool,
    pub pos_skip: u32,
    /// Whether an audio process runs.
    pub has_process: bool,
    pub commands: Vec<PlayerCommand>,
}

/// The views of some player commands: which command, and for a launch the
/// address and volume.
pub open spec fn sent(c: PlayerCommand) -> Option<MpvCommand> {
    match c {
        PlayerCommand::Send(m) => Some(m),
        _ => None,
    }
}

/// A track's length in nanoseconds.
pub open spec fn duration_nanos(info: TrackInfo) -> int {
    info.duration * NANOS_PER_SEC
}

/// `e` held to the length of the current track, if any.
pub open spec fn held_to_track(e: int, current: Option<TrackInfo>) -> int {
    match current {
        Some(info) => if e <= duration_nanos(info) {
            e
        } else {
            duration_nanos(info)
        },
        None => e,
    }
}

/// The commands that stopping queues: ask mpv to quit, kill the process if
/// there is one, remove the socket.
pub open spec fn stop_commands(had_process: bool) -> Seq<PlayerCommand> {
    if had_process {
        seq![PlayerCommand::Send(MpvCommand::Quit), PlayerCommand::Kill, PlayerCommand::RemoveSocket]
    } else {
        seq![PlayerCommand::Send(MpvCommand::Quit), PlayerCommand::RemoveSocket]
    }
}

/// Whether `p` is `q` stopped: nothing plays, no time counted, no process.
pub open spec fn stopped_from(p: Player, q: Player) -> bool {
    &&& p.state == PlayerState::Stopped
    &&& p.elapsed_nanos == 0
    &&& !p.clock_running
    &&& p.pos_skip == 0
    &&& !p.has_process
    &&& p.current == q.current
    &&& p.volume == q.volume
    &&& p.commands@ == q.commands@ + stop_commands(q.has_process)
}

/// Whether `after` is `before` with `c` sent to mpv and the count of time
/// played set to `e`.
pub open spec fn sent_at(before: Player, after: Player, c: MpvCommand, e: int) -> bool {
    &&& after == (Player { commands: after.commands, elapsed_nanos: e as u128, ..before })
    &&& after.commands@ == before.commands@.push(PlayerCommand::Send(c))
}

/// Whether `after` is `before` with playback paused or resumed: what plays
/// pauses and stops the clock, what is paused resumes and starts it; a
/// stopped player stays as it is.
pub open spec fn pause_toggled(before: Player, after: Player) -> bool {
    match before.state {
        PlayerState::Playing => {
            &&& after == (Player {
                state: PlayerState::Paused,
                clock_running: false,
                commands: after.commands,
                ..before
            })
            &&& after.commands@ == before.commands@.push(PlayerCommand::Send(MpvCommand::SetPause(true)))
        },
        PlayerState::Paused => {
            &&& after == (Player {
                state: PlayerState::Playing,
                clock_running: true,
                commands: after.commands,
                ..before
            })
            &&& after.commands@ == before.commands@.push(PlayerCommand::Send(MpvCommand::SetPause(false)))
        },
        PlayerState::Stopped => after == before,
    }
}

/// Whether `after` is `before` at volume `v`, told to mpv.
pub open spec fn volume_sent(before: Player, after: Player, v: u8) -> bool {
    &&& after == (Player { volume: v, commands: after.commands, ..before })
    &&& after.commands@ == before.commands@.push(PlayerCommand::Send(MpvCommand::SetVolume(v)))
}

/// Whether `after` is `before` sought ten seconds ahead: with a track, the
/// count of time played moves too, up to the track's length.
pub open spec fn seeked_ahead(before: Player, after: Player) -> bool {
    sent_at(
        before,
        after,
        MpvCommand::SeekRelative(10),
        match before.current {
            Some(_) => held_to_track(before.elapsed_nanos + 10 * NANOS_PER_SEC, before.current),
            None => before.elapsed_nanos as int,
        },
    )
}

/// Whether `after` is `before` sought ten seconds back; the count of time
/// played moves too, down to 0.
pub open spec fn seeked_back(before: Player, after: Player) -> bool {
    sent_at(
        before,
        after,
        MpvCommand::SeekRelative(-10i64),
        if before.elapsed_nanos >= 10 * NANOS_PER_SEC {
            before.elapsed_nanos - 10 * NANOS_PER_SEC
        } else {
            0
        },
    )
}

/// Whether `after` is `before` sought `secs` seconds ahead (back when
/// negative); the count of time played moves too, saturating at its bounds,
/// then is held to the track's length.
pub open spec fn seeked_by(before: Player, after: Player, secs: i64) -> bool {
    let moved = before.elapsed_nanos + secs * NANOS_PER_SEC;
    sent_at(
        before,
        after,
        MpvCommand::SeekRelative(secs),
        held_to_track(
            if moved < 0 {
                0
            } else if moved > ELAPSED_MAX {
                ELAPSED_MAX as int
            } else {
                moved
            },
            before.current,
        ),
    )
}

/// Whether `after` is `before` sought to `secs` seconds from the start; the
/// count of time played follows, held to the track's length.
pub open spec fn seeked_to(before: Player, after: Player, secs: u64) -> bool {
    sent_at(before, after, MpvCommand::SeekAbsolute(secs), held_to_track(secs * NANOS_PER_SEC, before.current))
}

impl Player {
    /// A stopped player at volume 85.
    pub fn new() -> (p: Self)
        ensures
            p.state == PlayerState::Stopped,
            p.current is None,
            p.volume == 85,
            p.elapsed_nanos == 0,
            !p.clock_running,
            p.pos_skip == 0,
            !p.has_process,
            p.commands@.len() == 0,
    {
        Player {
            state: PlayerState::Stopped,
            current: None,
            volume: 85,
            elapsed_nanos: 0,
            clock_running: false,
            pos_skip: 0,
            has_process: false,
            commands: Vec::new(),
        }
    }

    /// Starts `info`, streamed from `url`: stops what plays, then queues the
    /// launch of a new audio process. The player plays once `launched`
    /// reports that the process started.
    pub fn play(&mut self, url: &str, info: TrackInfo)
        ensures
            final(self).current == Some(info),
            final(self).state == PlayerState::Stopped,
            final(self).elapsed_nanos == 0,
            final(self).clock_running,
            final(self).pos_skip == 0,
            !final(self).has_process,
            final(self).volume == old(self).volume,
            final(self).commands@.drop_last() == old(self).commands@ + stop_commands(
                old(self).has_process,
            ) + seq![PlayerCommand::RemoveSocket],
            final(self).commands@.len() > 0,
            final(self).commands@.last() matches PlayerCommand::Launch { url: u, volume: v } && u@
                == url@ && v == old(self).volume,
    {
        self.stop();
        self.current = Some(info);
        self.elapsed_nanos = 0;
        self.clock_running = true;
        self.pos_skip = 0;
        self.commands.push(PlayerCommand::RemoveSocket);
        let ghost before = self.commands@;
        assert(before =~= old(self).commands@ + stop_commands(old(self).has_process) + seq![
            PlayerCommand::RemoveSocket,
        ]);
        self.commands.push(PlayerCommand::Launch { url: crate::text::string_of(url), volume: self.volume });
        assert(self.commands@.drop_last() == before);
    }

    /// Records whether the audio process of the last launch started.
    pub fn launched(&mut self, started: bool)
        ensures
            started ==> final(self).state == PlayerState::Playing && final(self).has_process,
            !started ==> *final(self) == *old(self),
            final(self).current == old(self).current,
            final(self).volume == old(self).volume,
            final(self).elapsed_nanos == old(self).elapsed_nanos,
            final(self).clock_running == old(self).clock_running,
            final(self).pos_skip == old(self).pos_skip,
            final(self).commands == old(self).commands,
    {
        if started {
            self.has_process = true;
            self.state = PlayerState::Playing;
        }
    }

    /// Stops playback: asks mpv to quit, kills the process, removes the
    /// socket, and forgets the time played; the current track stays known.
    pub fn stop(&mut self)
        ensures
            stopped_from(*final(self), *old(self)),
    {
        self.commands.push(PlayerCommand::Send(MpvCommand::Quit));
        if self.has_process {
            self.commands.push(PlayerCommand::Kill);
            self.has_process = false;
        }
        self.commands.push(PlayerCommand::RemoveSocket);
        self.state = PlayerState::Stopped;
        self.elapsed_nanos = 0;
        self.clock_running = false;
        self.pos_skip = 0;
        assert(self.commands@ =~= old(self).commands@ + stop_commands(old(self).has_process));
    }

    /// Pauses what plays or resumes what is paused; does nothing when stopped.
    pub fn toggle_pause(&mut self)
        ensures
            pause_toggled(*old(self), *final(self)),
    {
        match self.state {
            PlayerState::Playing => {
                self.commands.push(PlayerCommand::Send(MpvCommand::SetPause(true)));
                self.state = PlayerState::Paused;
                self.clock_running = false;
            },
            PlayerState::Paused => {
                self.commands.push(PlayerCommand::Send(MpvCommand::SetPause(false)));
                self.state = PlayerState::Playing;
                self.clock_running = true;
            },
            PlayerState::Stopped => {},
        }
    }

    /// Sets the volume, at most 100, and tells mpv.
    pub fn set_volume(&mut self, v: u8)
        ensures
            volume_sent(*old(self), *final(self), if v <= 100 { v } else { 100u8 }),
    {
        self.volume = if v <= 100 { v } else { 100 };
        self.commands.push(PlayerCommand::Send(MpvCommand::SetVolume(self.volume)));
    }

    /// Raises the volume by 5, up to 100, and tells mpv.
    pub fn volume_up(&mut self)
        requires
            old(self).volume <= 250,
        ensures
            volume_sent(
                *old(self),
                *final(self),
                if old(self).volume + 5 <= 100 { (old(self).volume + 5) as u8 } else { 100u8 },
            ),
    {
        let v = self.volume + 5;
        self.volume = if v <= 100 { v } else { 100 };
        self.commands.push(PlayerCommand::Send(MpvCommand::SetVolume(self.volume)));
    }

    /// Lowers the volume by 5, down to 0, and tells mpv.
    pub fn volume_down(&mut self)
        ensures
            volume_sent(
                *old(self),
                *final(self),
                if old(self).volume >= 5 { (old(self).volume - 5) as u8 } else { 0u8 },
            ),
    {
        self.volume = if self.volume >= 5 { self.volume - 5 } else { 0 };
        self.commands.push(PlayerCommand::Send(MpvCommand::SetVolume(self.volume)));
    }

    fn hold_to_track(&mut self)
        requires
            old(self).elapsed_nanos <= ELAPSED_MAX,
        ensures
            final(self).elapsed_nanos == held_to_track(old(self).elapsed_nanos as int, old(self).current),
            final(self).state == old(self).state,
            final(self).current == old(self).current,
            final(self).volume == old(self).volume,
            final(self).clock_running == old(self).clock_running,
            final(self).pos_skip == old(self).pos_skip,
            final(self).has_process == old(self).has_process,
            final(self).commands == old(self).commands,
    {
        match &self.current {
            Some(info) => {
                let max: u128 = (info.duration as u128) * NANOS_PER_SEC;
                if self.elapsed_nanos > max {
                    self.elapsed_nanos = max;
                }
            },
            None => {},
        }
    }

    /// Seeks ten seconds ahead; the count of time played moves too, up to
    /// the track's length.
    pub fn seek_forward(&mut self)
        requires
            old(self).current is Some ==> old(self).elapsed_nanos + 10 * NANOS_PER_SEC <= ELAPSED_MAX,
        ensures
            seeked_ahead(*old(self), *final(self)),
    {
        self.commands.push(PlayerCommand::Send(MpvCommand::SeekRelative(10)));
        if self.current.is_some() {
            self.elapsed_nanos = self.elapsed_nanos + 10 * NANOS_PER_SEC;
            self.hold_to_track();
        }
    }

    /// Seeks ten seconds back; the count of time played moves too, down to 0.
    pub fn seek_backward(&mut self)
        ensures
            seeked_back(*old(self), *final(self)),
    {
        self.commands.push(PlayerCommand::Send(MpvCommand::SeekRelative(-10)));
        self.elapsed_nanos = if self.elapsed_nanos >= 10 * NANOS_PER_SEC {
            self.elapsed_nanos - 10 * NANOS_PER_SEC
        } else {
            0
        };
    }

    /// Seeks `secs` seconds ahead (back when negative); the count of time
    /// played moves too, saturating at its bounds, then is held to the
    /// track's length.
    pub fn seek_relative(&mut self, secs: i64)
        requires
            secs != i64::MIN,
            old(self).elapsed_nanos <= ELAPSED_MAX,
        ensures
            seeked_by(*old(self), *final(self), secs),
    {
        self.commands.push(PlayerCommand::Send(MpvCommand::SeekRelative(secs)));
        if secs >= 0 {
            let d: u128 = (secs as u128) * NANOS_PER_SEC;
            self.elapsed_nanos = if self.elapsed_nanos <= ELAPSED_MAX - d {
                self.elapsed_nanos + d
            } else {
                ELAPSED_MAX
            };
        } else {
            let d: u128 = ((-secs) as u128) * NANOS_PER_SEC;
            self.elapsed_nanos = if self.elapsed_nanos >= d {
                self.elapsed_nanos - d
            } else {
                0
            };
        }
        self.hold_to_track();
    }

    /// Seeks to `secs` seconds from the start; the count of time played
    /// follows, held to the track's length.
    pub fn seek_absolute(&mut self, secs: u64)
        ensures
            seeked_to(*old(self), *final(self), secs),
    {
        self.commands.push(PlayerCommand::Send(MpvCommand::SeekAbsolute(secs)));
        self.elapsed_nanos = (secs as u128) * NANOS_PER_SEC;
        self.hold_to_track();
    }

    /// The first half of a tick: `exited` tells whether the audio process
    /// has ended, which stops playback. Returns whether mpv must be asked
    /// for the playback position before `tick_end`.
    pub fn tick_begin(&mut self, exited: bool) -> (query: bool)
        requires
            old(self).pos_skip < u32::MAX,
        ensures
            ({
                let ended = exited && old(self).has_process;
                &&& final(self).state == if ended { PlayerState::Stopped } else { old(self).state }
                &&& final(self).has_process == (old(self).has_process && !ended)
                &&& final(self).clock_running == (old(self).clock_running && !ended)
                &&& final(self).pos_skip == if final(self).state == PlayerState::Playing {
                    old(self).pos_skip + 1
                } else if ended {
                    0
                } else {
                    old(self).pos_skip as int
                }
                &&& final(self).commands@ == if ended {
                    old(self).commands@.push(PlayerCommand::RemoveSocket)
                } else {
                    old(self).commands@
                }
            }),
            query == (final(self).state == PlayerState::Playing && final(self).pos_skip
                % TICKS_PER_QUERY == 0),
            final(self).current == old(self).current,
            final(self).volume == old(self).volume,
            final(self).elapsed_nanos == old(self).elapsed_nanos,
    {
        if exited && self.has_process {
            self.has_process = false;
            self.state = PlayerState::Stopped;
            self.clock_running = false;
            self.pos_skip = 0;
            self.commands.push(PlayerCommand::RemoveSocket);
        }
        if self.state == PlayerState::Playing {
            self.pos_skip = self.pos_skip + 1;
            self.pos_skip % TICKS_PER_QUERY == 0
        } else {
            false
        }
    }

    /// The second half of a tick, while playing: the position that mpv
    /// reported when it was asked (`position`, in nanoseconds), or else the
    /// wall-clock time since the last tick (`since_last`) added to the count
    /// and held to the track's length. The clock then runs from now.
    pub fn tick_end(&mut self, position: Option<u128>, since_last: u128)
        requires
            old(self).elapsed_nanos + since_last <= ELAPSED_MAX,
        ensures
            old(self).state != PlayerState::Playing ==> *final(self) == *old(self),
            old(self).state == PlayerState::Playing ==> {
                &&& final(self).clock_running
                &&& final(self).elapsed_nanos == if old(self).pos_skip % TICKS_PER_QUERY == 0 {
                    match position {
                        Some(p) => p as int,
                        None => old(self).elapsed_nanos as int,
                    }
                } else if old(self).clock_running {
                    held_to_track(old(self).elapsed_nanos + since_last, old(self).current)
                } else {
                    old(self).elapsed_nanos as int
                }
            },
            final(self).state == old(self).state,
            final(self).current == old(self).current,
            final(self).volume == old(self).volume,
            final(self).pos_skip == old(self).pos_skip,
            final(self).has_process == old(self).has_process,
            final(self).commands == old(self).commands,
    {
        if self.state == PlayerState::Playing {
            if self.pos_skip % TICKS_PER_QUERY == 0 {
                match position {
                    Some(p) => {
                        self.elapsed_nanos = p;
                    },
                    None => {},
                }
            } else if self.clock_running {
                self.elapsed_nanos = self.elapsed_nanos + since_last;
                self.hold_to_track();
            }
            self.clock_running = true;
        }
    }

    /// Whole seconds played.
    pub fn elapsed_secs(&self) -> (s: u64)
        requires
            self.elapsed_nanos <= ELAPSED_MAX,
        ensures
            s == self.elapsed_nanos / NANOS_PER_SEC,
    {
        (self.elapsed_nanos / NANOS_PER_SEC) as u64
    }

    /// Time played as `m:ss`.
    pub fn elapsed_str(&self) -> (s: String)
        requires
            self.elapsed_nanos <= ELAPSED_MAX,
        ensures
            s@ == clock_text((self.elapsed_nanos / NANOS_PER_SEC) as nat),
    {
        let mut s = String::new();
        push_clock(&mut s, self.elapsed_secs());
        s
    }
}

/// Pausing twice comes back to where one started: the state, the track,
/// the volume and the time played are those of before, and the clock runs
/// exactly when the track plays.
pub proof fn lemma_pause_twice(p: Player, q: Player, r: Player)
    requires
        pause_toggled(p, q),
        pause_toggled(q, r),
    ensures
        r.state == p.state,
        p.state != PlayerState::Stopped ==> r.clock_running == (p.state == PlayerState::Playing),
        r.current == p.current,
        r.volume == p.volume,
        r.elapsed_nanos == p.elapsed_nanos,
        r.has_process == p.has_process,
        p.state == PlayerState::Stopped ==> r == p,
{
}


/// The line that sets mpv's pause carries the JSON literal `true` at its
/// value exactly when it asks to pause: pausing sends `true`, resuming
/// `false`.
pub proof fn lemma_pause_line(p: bool)
    ensures
        ({
            let l = mpv_line(MpvCommand::SetPause(p));
            &&& l.len() >= 7
            &&& (l.subrange(l.len() - 7, l.len() as int) == "true]}\n"@ <==> p)
            &&& l.take(35) == "{\"command\":[\"set_property\",\"pause\","@
        }),
{
    reveal_strlit("{\"command\":[\"set_property\",\"pause\",");
    reveal_strlit("true");
    reveal_strlit("false");
    reveal_strlit("]}\n");
    reveal_strlit("true]}\n");
    let l = mpv_line(MpvCommand::SetPause(p));
    let pre = "{\"command\":[\"set_property\",\"pause\","@;
    let v = if p { "true"@ } else { "false"@ };
    let post = "]}\n"@;
    assert(l == pre + v + post);
    assert(pre.len() == 35);
    assert(l.take(35) =~= pre);
    if p {
        assert(l.subrange(l.len() - 7, l.len() as int) =~= "true]}\n"@);
    } else {
        assert(l.len() == 35 + 5 + 3);
        assert(l[36] == 'a');
        assert(l.subrange(l.len() - 7, l.len() as int)[0] == l[36]);
        assert("true]}\n"@[0] == 't');
    }
}

/// Pausing a playing player sends mpv the line with `true`; resuming a
/// paused one sends the line with `false`.
pub proof fn lemma_toggle_sends_pause_value(before: Player, after: Player)
    requires
        pause_toggled(before, after),
        before.state != PlayerState::Stopped,
    ensures
        after.commands@.last() == PlayerCommand::Send(MpvCommand::SetPause(before.state == PlayerState::Playing)),
        after.state == (if before.state == PlayerState::Playing { PlayerState::Paused } else { PlayerState::Playing }),
{
}

} // verus!
