//! Lyrics as Tidal returns them, and the reading of time-synchronised (LRC)
//! lyrics.
use crate::text::{
    byte_len, byte_len_capped, chars_of, find_char, find_in, lemma_find_char_facts,
    parse_u64_in, parse_u64_spec, substring, timestamp_seconds, timestamp_seconds_in, trim,
    trim_bounds,
};
use vstd::prelude::*;
use vstd::string::*;

verus! {

/// The lyrics fields of the daemon's reply.
#[derive(Debug)]
pub struct LyricsResponse {
    pub lyrics: Option<String>,
    pub subtitles: Option<String>,
}

/// Lyrics ready for display: the timed lines when there are any, and the
/// plain text.
#[derive(Debug)]
pub struct Lyrics {
    pub lines: Vec<(u64, String)>,
    pub plain: String,
    pub has_sync: bool,
}

/// What one line of LRC text contributes: its time in seconds and its text,
/// or nothing when the line is not a timed line. The line is trimmed; it must
/// take at least 8 bytes, start with `[`, have its first `]` at byte 6 or
/// later, and hold `minutes:seconds` between the brackets. Minutes that do not
/// read as a number count as 0; seconds are read by `timestamp_seconds`.
pub open spec fn lrc_line(raw: Seq<char>) -> Option<(nat, Seq<char>)> {
    let l = trim(raw);
    if byte_len(l) < 8 || l[0] != '[' {
        None
    } else {
        match find_char(l, ']') {
            None => None,
            Some(k) => if byte_len(l.take(k)) < 6 {
                None
            } else {
                let ts = l.subrange(1, k);
                match find_char(ts, ':') {
                    None => None,
                    Some(c) => {
                        let min = match parse_u64_spec(ts.take(c)) {
                            Some(m) => m,
                            None => 0,
                        };
                        Some((min * 60 + timestamp_seconds(ts.skip(c + 1)), trim(l.skip(k + 1))))
                    },
                }
            },
        }
    }
}

/// The entries of one line: none or one.
pub open spec fn line_entries(raw: Seq<char>) -> Seq<(nat, Seq<char>)> {
    match lrc_line(raw) {
        Some(e) => seq![e],
        None => Seq::empty(),
    }
}

/// The timed lines of an LRC text, in the order of the text, one per line
/// (lines being separated by `\n`) that reads as a timed line.
pub open spec fn lrc_entries(s: Seq<char>) -> Seq<(nat, Seq<char>)>
    decreases s.len(),
{
    match find_char(s, '\n') {
        None => line_entries(s),
        Some(k) => {
            proof {
                lemma_find_char_facts(s, '\n');
            }
            line_entries(s.take(k)) + lrc_entries(s.skip(k + 1))
        },
    }
}

/// Whether every time of an LRC text fits in 64 bits.
pub open spec fn lrc_fits(s: Seq<char>) -> bool {
    forall|i: int| 0 <= i < lrc_entries(s).len() ==> #[trigger] lrc_entries(s)[i].0 <= u64::MAX
}

/// The timed lines as plain values.
pub open spec fn entry_views(v: Seq<(u64, String)>) -> Seq<(nat, Seq<char>)> {
    v.map_values(|e: (u64, String)| (e.0 as nat, e.1@))
}

/// Reads the line `v[lo..hi]` of `lrc`, whose characters are `v`; the time
/// comes back in 128 bits, where it always fits.
fn lrc_line_in(lrc: &str, v: &Vec<char>, lo: usize, hi: usize) -> (r: Option<(u128, String)>)
    requires
        v@ == lrc@,
        lo <= hi <= v@.len(),
    ensures
        match r {
            Some(e) => lrc_line(v@.subrange(lo as int, hi as int)) == Some((e.0 as nat, e.1@)),
            None => lrc_line(v@.subrange(lo as int, hi as int)) == None::<(nat, Seq<char>)>,
        },
{
    let ghost raw = v@.subrange(lo as int, hi as int);
    let (a, b) = trim_bounds(v, lo, hi);
    let ghost l = v@.subrange(a as int, b as int);
    assert(trim(raw) == l);
    let blen = byte_len_capped(v, a, b, 8);
    if blen < 8 || v[a] != '[' {
        return None;
    }
    let close = find_in(v, a, b, ']');
    let k = match close {
        None => {
            return None;
        },
        Some(k) => k,
    };
    let ghost kl = k - a;
    assert(l.take(kl) =~= v@.subrange(a as int, k as int));
    if byte_len_capped(v, a, k, 6) < 6 {
        return None;
    }
    let ghost ts = l.subrange(1, kl);
    assert(ts =~= v@.subrange(a + 1, k as int));
    let colon = find_in(v, a + 1, k, ':');
    let c = match colon {
        None => {
            return None;
        },
        Some(c) => c,
    };
    let ghost cl = c - (a + 1);
    assert(ts.take(cl) =~= v@.subrange(a + 1, c as int));
    assert(ts.skip(cl + 1) =~= v@.subrange(c + 1, k as int));
    let min: u64 = match parse_u64_in(v, a + 1, c) {
        Some(m) => m,
        None => 0,
    };
    let sec = timestamp_seconds_in(v, c + 1, k);
    let (ta, tb) = trim_bounds(v, k + 1, b);
    assert(l.skip(kl + 1) =~= v@.subrange(k + 1, b as int));
    let text = substring(lrc, ta, tb);
    let t: u128 = (min as u128) * 60 + (sec as u128);
    Some((t, text))
}

/// The timed lines of an LRC text, or `None` when a time does not fit in
/// 64 bits.
pub fn try_parse_lrc(lrc: &str) -> (r: Option<Vec<(u64, String)>>)
    ensures
        r.is_some() == lrc_fits(lrc@),
        r matches Some(v) ==> entry_views(v@) == lrc_entries(lrc@),
{
    let v = chars_of(lrc);
    let n = v.len();
    let mut out: Vec<(u64, String)> = Vec::new();
    let mut start: usize = 0;
    proof {
        assert(v@.skip(0) =~= v@);
        assert(entry_views(out@) =~= Seq::<(nat, Seq<char>)>::empty());
    }
    loop
        invariant
            v@ == lrc@,
            n == v@.len(),
            start <= n,
            entry_views(out@) + lrc_entries(v@.skip(start as int)) == lrc_entries(v@),
            forall|i: int| 0 <= i < out@.len() ==> #[trigger] entry_views(out@)[i].0 <= u64::MAX,
        decreases n - start,
    {
        let ghost rest = v@.skip(start as int);
        let nl = find_in(&v, start, n, '\n');
        assert(v@.subrange(start as int, n as int) =~= rest);
        let end = match nl {
            Some(e) => e,
            None => n,
        };
        let ghost seg = v@.subrange(start as int, end as int);
        proof {
            match nl {
                Some(e) => {
                    assert(rest.take(e - start) =~= seg);
                    assert(rest.skip(e - start + 1) =~= v@.skip(e + 1));
                    assert(lrc_entries(rest) == line_entries(seg) + lrc_entries(v@.skip(e + 1)));
                },
                None => {
                    assert(seg =~= rest);
                    assert(lrc_entries(rest) == line_entries(seg));
                },
            }
        }
        let ghost before = entry_views(out@);
        match lrc_line_in(lrc, &v, start, end) {
            Some((t, text)) => {
                if t > u64::MAX as u128 {
                    proof {
                        let all = lrc_entries(v@);
                        assert(line_entries(seg) == seq![(t as nat, text@)]);
                        assert(all[before.len() as int] == (t as nat, text@));
                        assert(lrc_entries(lrc@)[before.len() as int].0 > u64::MAX);
                        assert(!lrc_fits(lrc@));
                    }
                    return None;
                }
                out.push((t as u64, text));
                proof {
                    assert(entry_views(out@) =~= before.push((t as nat, text@)));
                }
            },
            None => {},
        }
        match nl {
            Some(e) => {
                start = e + 1;
            },
            None => {
                proof {
                    assert(v@.skip(n as int) =~= Seq::<char>::empty());
                    assert(entry_views(out@) == lrc_entries(v@));
                    assert forall|i: int| 0 <= i < lrc_entries(lrc@).len() implies #[trigger] lrc_entries(
                        lrc@,
                    )[i].0 <= u64::MAX by {
                        assert(entry_views(out@)[i].0 <= u64::MAX);
                    }
                }
                return Some(out);
            },
        }
    }
}

/// The timed lines of an LRC text, in the order of the text; lines that are
/// not timed lines are skipped.
pub fn parse_lrc(lrc: &str) -> (r: Vec<(u64, String)>)
    requires
        lrc_fits(lrc@),
    ensures
        entry_views(r@) == lrc_entries(lrc@),
{
    match try_parse_lrc(lrc) {
        Some(v) => v,
        None => Vec::new(),
    }
}



/// Whether the times of some timed lines never decrease.
pub open spec fn times_sorted(v: Seq<(u64, String)>) -> bool {
    forall|i: int, j: int| 0 <= i <= j < v.len() ==> #[trigger] v[i].0 <= #[trigger] v[j].0
}

/// Whether `r` is the line to show at `elapsed` seconds among the sorted
/// timed lines `v`: the last line whose time has come, or the first line
/// while none has.
pub open spec fn is_current_line(v: Seq<(u64, String)>, elapsed: u64, r: int) -> bool {
    0 <= r < v.len() && ((r == 0 && v[0].0 > elapsed) || (v[r].0 <= elapsed && (r + 1 == v.len()
        || v[r + 1].0 > elapsed)))
}

/// Whether some subtitles hold anything.
pub open spec fn has_subtitles(s: Option<String>) -> bool {
    match s {
        Some(t) => t@.len() > 0,
        None => false,
    }
}

/// Whether the subtitles of a reply can be read: absent, or with every time
/// within 64 bits.
pub open spec fn subtitles_fit(s: Option<String>) -> bool {
    match s {
        Some(t) => lrc_fits(t@),
        None => true,
    }
}

/// The characters of the plain lyrics of a reply, empty when absent.
pub open spec fn plain_text_of(s: Option<String>) -> Seq<char> {
    match s {
        Some(t) => t@,
        None => Seq::empty(),
    }
}

/// The timed lines that a reply's subtitles give.
pub open spec fn synced_entries(s: Option<String>) -> Seq<(nat, Seq<char>)> {
    match s {
        Some(t) => if t@.len() > 0 {
            lrc_entries(t@)
        } else {
            Seq::empty()
        },
        None => Seq::empty(),
    }
}

impl Lyrics {
    /// Lyrics from the daemon's reply: synchronised when there are non-empty
    /// subtitles, whose timed lines are then read; the plain text in any case.
    pub fn from_response(resp: LyricsResponse) -> (l: Lyrics)
        requires
            subtitles_fit(resp.subtitles),
        ensures
            l.plain@ == plain_text_of(resp.lyrics),
            l.has_sync == has_subtitles(resp.subtitles),
            entry_views(l.lines@) == synced_entries(resp.subtitles),
    {
        let plain = match resp.lyrics {
            Some(t) => t,
            None => String::new(),
        };
        match resp.subtitles {
            Some(s) => {
                if !s.as_str().is_empty() {
                    let lines = parse_lrc(s.as_str());
                    Lyrics { lines, plain, has_sync: true }
                } else {
                    let lines: Vec<(u64, String)> = Vec::new();
                    assert(entry_views(lines@) =~= Seq::<(nat, Seq<char>)>::empty());
                    Lyrics { lines, plain, has_sync: false }
                }
            },
            None => {
                let lines: Vec<(u64, String)> = Vec::new();
                assert(entry_views(lines@) =~= Seq::<(nat, Seq<char>)>::empty());
                Lyrics { lines, plain, has_sync: false }
            },
        }
    }

    /// Lyrics from the daemon's reply, as `from_response` makes them, or
    /// `None` when a time of the subtitles does not fit in 64 bits.
    pub fn try_from_response(resp: LyricsResponse) -> (r: Option<Lyrics>)
        ensures
            r.is_some() == subtitles_fit(resp.subtitles),
            r matches Some(l) ==> {
                &&& l.plain@ == plain_text_of(resp.lyrics)
                &&& l.has_sync == has_subtitles(resp.subtitles)
                &&& entry_views(l.lines@) == synced_entries(resp.subtitles)
            },
    {
        let fits = match &resp.subtitles {
            Some(s) => try_parse_lrc(s.as_str()).is_some(),
            None => true,
        };
        if fits {
            Some(Lyrics::from_response(resp))
        } else {
            None
        }
    }

    /// The index of the line to highlight after `elapsed_secs` seconds: 0
    /// without timed lines; with timed lines sorted by time, the last line
    /// whose time has come, or the first while none has.
    pub fn current_line(&self, elapsed_secs: u64) -> (r: usize)
        ensures
            !self.has_sync || self.lines@.len() == 0 ==> r == 0,
            self.has_sync && self.lines@.len() > 0 ==> r < self.lines@.len(),
            self.has_sync && self.lines@.len() > 0 && times_sorted(self.lines@) ==> is_current_line(
                self.lines@,
                elapsed_secs,
                r as int,
            ),
    {
        if !self.has_sync || self.lines.len() == 0 {
            return 0;
        }
        let ghost v = self.lines@;
        let n = self.lines.len();
        let mut lo: usize = 0;
        let mut hi: usize = n;
        while lo < hi
            invariant
                v == self.lines@,
                n == v.len(),
                lo <= hi <= n,
                times_sorted(v) ==> forall|j: int| 0 <= j < lo ==> #[trigger] v[j].0 <= elapsed_secs,
                times_sorted(v) ==> forall|j: int| hi <= j < n ==> #[trigger] v[j].0 > elapsed_secs,
            decreases hi - lo,
        {
            let mid = lo + (hi - lo) / 2;
            if self.lines[mid].0 <= elapsed_secs {
                proof {
                    if times_sorted(v) {
                        assert forall|j: int| 0 <= j < mid + 1 implies #[trigger] v[j].0 <= elapsed_secs by {
                            assert(v[j].0 <= v[mid as int].0);
                        }
                    }
                }
                lo = mid + 1;
            } else {
                proof {
                    if times_sorted(v) {
                        assert forall|j: int| mid <= j < n implies #[trigger] v[j].0 > elapsed_secs by {
                            assert(v[mid as int].0 <= v[j].0);
                        }
                    }
                }
                hi = mid;
            }
        }
        if lo == 0 {
            0
        } else {
            lo - 1
        }
    }
}

} // verus!
