use vstd::prelude::*;
use crate::dates::{decimal, u64_to_decimal};

verus! {

/// How long after a click on a player control the live player list is
/// kept from overwriting what the user did, in milliseconds.
pub const USER_ACTION_MS: u64 = 1500;

/// Whether the user touched a player control less than `USER_ACTION_MS`
/// ago (`last_action` and `now` in milliseconds of a monotonic clock).
pub fn user_interacting(last_action: Option<u64>, now: u64) -> (r: bool)
    ensures
        r == (last_action matches Some(t) && (if now >= t {
            now - t
        } else {
            0
        }) < USER_ACTION_MS),
{
    match last_action {
        Some(t) => {
            let elapsed = if now >= t {
                now - t
            } else {
                0
            };
            elapsed < USER_ACTION_MS
        },
        None => false,
    }
}

/// Index of the first playing player.
pub open spec fn first_playing(playing: Seq<bool>) -> int
    decreases playing.len(),
{
    if playing.len() == 0 {
        -1
    } else if first_playing(playing.drop_last()) >= 0 {
        first_playing(playing.drop_last())
    } else if playing.last() {
        playing.len() - 1
    } else {
        -1
    }
}

/// The player the idle card selects after the list changed: the first one
/// that plays, else the first one.
pub open spec fn hover_selection_spec(playing: Seq<bool>) -> int {
    if first_playing(playing) >= 0 {
        first_playing(playing)
    } else {
        0
    }
}

pub fn hover_selection(playing: &Vec<bool>) -> (r: usize)
    ensures
        r == hover_selection_spec(playing@),
{
    let mut i: usize = 0;
    while i < playing.len()
        invariant
            i <= playing@.len(),
            forall|j: int| 0 <= j < i ==> !playing@[j],
        decreases playing@.len() - i,
    {
        if playing[i] {
            proof {
                lemma_first_is(playing@, i as int);
            }
            return i;
        }
        i = i + 1;
    }
    proof {
        lemma_none_playing(playing@);
    }
    0
}

proof fn lemma_first_is(playing: Seq<bool>, i: int)
    requires
        0 <= i < playing.len(),
        playing[i],
        forall|j: int| 0 <= j < i ==> !playing[j],
    ensures
        first_playing(playing) == i,
    decreases playing.len(),
{
    if i < playing.len() - 1 {
        lemma_first_is(playing.drop_last(), i);
    } else {
        lemma_none_playing(playing.drop_last());
    }
}

proof fn lemma_none_playing(playing: Seq<bool>)
    requires
        forall|j: int| 0 <= j < playing.len() ==> !playing[j],
    ensures
        first_playing(playing) == -1,
    decreases playing.len(),
{
    if playing.len() > 0 {
        lemma_none_playing(playing.drop_last());
    }
}

/// Where an entry of the dashboard's player list comes from after a sync.
#[derive(Clone, Copy, Debug, PartialEq, Eq, Structural)]
pub enum PlayerSource {
    /// The live player at this index.
    Live(usize),
    /// The live player at this index, with the playing flag the user set.
    LiveKeepPlaying(usize),
    /// The entry the list held at this index, unchanged.
    Kept(usize),
}

/// The dashboard's player list after a sync. Without a recent click (or
/// with an empty list) it is the live list; right after a click each entry
/// takes the live player at its index when that is the same player, keeping
/// the playing flag the click set, and stays as it was otherwise.
pub open spec fn sync_players_spec(old_bus: Seq<String>, live_bus: Seq<String>, recent: bool) -> Seq<
    PlayerSource,
> {
    if !recent || old_bus.len() == 0 {
        Seq::new(live_bus.len(), |i: int| PlayerSource::Live(i as usize))
    } else {
        Seq::new(
            old_bus.len(),
            |i: int|
                if i < live_bus.len() && old_bus[i]@ == live_bus[i]@ {
                    PlayerSource::LiveKeepPlaying(i as usize)
                } else {
                    PlayerSource::Kept(i as usize)
                },
        )
    }
}

/// Syncs the dashboard's players (by bus name) with the live ones.
pub fn sync_players(old_bus: &Vec<String>, live_bus: &Vec<String>, recent: bool) -> (r: Vec<
    PlayerSource,
>)
    ensures
        r@ == sync_players_spec(old_bus@, live_bus@, recent),
{
    let mut out: Vec<PlayerSource> = Vec::new();
    if !recent || old_bus.len() == 0 {
        let mut i: usize = 0;
        while i < live_bus.len()
            invariant
                i <= live_bus@.len(),
                out@ =~= Seq::new(i as nat, |k: int| PlayerSource::Live(k as usize)),
            decreases live_bus@.len() - i,
        {
            out.push(PlayerSource::Live(i));
            i = i + 1;
        }
    } else {
        let mut i: usize = 0;
        while i < old_bus.len()
            invariant
                i <= old_bus@.len(),
                out@ =~= Seq::new(
                    i as nat,
                    |k: int|
                        if k < live_bus@.len() && old_bus@[k]@ == live_bus@[k]@ {
                            PlayerSource::LiveKeepPlaying(k as usize)
                        } else {
                            PlayerSource::Kept(k as usize)
                        },
                ),
            decreases old_bus@.len() - i,
        {
            if i < live_bus.len() && old_bus[i] == live_bus[i] {
                out.push(PlayerSource::LiveKeepPlaying(i));
            } else {
                out.push(PlayerSource::Kept(i));
            }
            i = i + 1;
        }
    }
    out
}

/// The selection goes back to the first player when it ran past the end
/// of a non-empty list.
pub fn keep_selection(sel: usize, len: usize) -> (r: usize)
    ensures
        r == if sel >= len && len > 0 {
            0
        } else {
            sel
        },
{
    if sel >= len && len > 0 {
        0
    } else {
        sel
    }
}

/// The title the media panel shows, "Desconocido" for a track without one.
pub fn shown_title(title: &String) -> (r: String)
    ensures
        r@ == if title@.len() == 0 {
            "Desconocido"@
        } else {
            title@
        },
{
    if title.as_str().unicode_len() == 0 {
        String::from_str("Desconocido")
    } else {
        title.clone()
    }
}

/// The artist the media panel shows, "Artista desconocido" when unknown.
pub fn shown_artist(artist: &String) -> (r: String)
    ensures
        r@ == if artist@.len() == 0 {
            "Artista desconocido"@
        } else {
            artist@
        },
{
    if artist.as_str().unicode_len() == 0 {
        String::from_str("Artista desconocido")
    } else {
        artist.clone()
    }
}

/// The switcher's counter, "2/3": the selected player counted from one.
pub fn player_counter(selected: usize, total: usize) -> (r: String)
    requires
        selected < usize::MAX,
    ensures
        r@ == decimal((selected + 1) as nat) + "/"@ + decimal(total as nat),
{
    let a = u64_to_decimal((selected + 1) as u64);
    let b = u64_to_decimal(total as u64);
    a.concat("/").concat(b.as_str())
}

/// Whether the media panel shows a track: the player has media and the
/// track a title; otherwise it shows its "nothing playing" card.
pub fn shows_track(has_media: bool, title_empty: bool) -> (r: bool)
    ensures
        r == (has_media && !title_empty),
{
    has_media && !title_empty
}

/// The progress line of the media panel, as (position, length) in whole
/// seconds: only for a track with a known positive length; the position,
/// missing counting as 0, is held between 0 and the length.
pub open spec fn track_progress_spec(length_micros: Option<i64>, position_micros: Option<i64>) -> Option<
    (i64, i64),
> {
    let len: int = match length_micros {
        Some(l) => l as int,
        None => 0,
    };
    let pos: int = match position_micros {
        Some(p) => p as int,
        None => 0,
    };
    if len > 0 {
        let total = len / 1_000_000;
        let at = if pos < 0 {
            0
        } else if pos / 1_000_000 > total {
            total
        } else {
            pos / 1_000_000
        };
        Some((at as i64, total as i64))
    } else {
        None
    }
}

pub fn track_progress(length_micros: Option<i64>, position_micros: Option<i64>) -> (r: Option<
    (i64, i64),
>)
    ensures
        r == track_progress_spec(length_micros, position_micros),
{
    let len: i64 = match length_micros {
        Some(l) => l,
        None => 0,
    };
    let pos: i64 = match position_micros {
        Some(p) => p,
        None => 0,
    };
    if len <= 0 {
        return None;
    }
    let total: i64 = len / 1_000_000;
    let at: i64 = if pos < 0 {
        0
    } else if pos / 1_000_000 > total {
        total
    } else {
        pos / 1_000_000
    };
    Some((at, total))
}

proof fn lemma_first_playing_props(playing: Seq<bool>)
    ensures
        -1 <= first_playing(playing) < playing.len(),
        first_playing(playing) >= 0 ==> playing[first_playing(playing)],
        forall|j: int|
            0 <= j < playing.len() && (first_playing(playing) < 0 || j < first_playing(playing))
                ==> !#[trigger] playing[j],
    decreases playing.len(),
{
    if playing.len() > 0 {
        let p = playing.drop_last();
        lemma_first_playing_props(p);
        if first_playing(p) >= 0 {
            assert(playing[first_playing(p)] == p[first_playing(p)]);
        }
        assert forall|j: int|
            0 <= j < playing.len() && (first_playing(playing) < 0 || j < first_playing(playing))
                implies !#[trigger] playing[j] by {
            if j < p.len() {
                assert(p[j] == playing[j]);
            }
        }
    }
}

/// After the player list changed, the idle card selects a player that
/// plays, none before it playing; when none plays, the first one.
pub proof fn lemma_hover_selects_first_playing(playing: Seq<bool>)
    ensures
        (exists|i: int| 0 <= i < playing.len() && #[trigger] playing[i]) ==> ({
            let r = hover_selection_spec(playing);
            &&& 0 <= r < playing.len()
            &&& playing[r]
            &&& forall|j: int| 0 <= j < r ==> !#[trigger] playing[j]
        }),
        !(exists|i: int| 0 <= i < playing.len() && #[trigger] playing[i]) ==> hover_selection_spec(
            playing,
        ) == 0,
{
    lemma_first_playing_props(playing);
}

/// The media panel's progress exists exactly for a track of positive
/// length; its length is the whole seconds of the track, the position
/// never passes it, and a position within the track reads as its whole
/// seconds.
pub proof fn lemma_track_progress_bounds(length_micros: Option<i64>, position_micros: Option<i64>)
    ensures
        (track_progress_spec(length_micros, position_micros) is Some) <==> (length_micros matches Some(
            l,
        ) && l > 0),
        track_progress_spec(length_micros, position_micros) matches Some((at, total)) ==> ({
            let l = length_micros->0 as int;
            &&& total as int * 1_000_000 <= l < (total as int + 1) * 1_000_000
            &&& 0 <= at <= total
            &&& position_micros matches Some(p) ==> (0 <= p <= l ==> at as int * 1_000_000 <= p < (
            at as int + 1) * 1_000_000)
            &&& position_micros is None ==> at == 0
        }),
{
    match length_micros {
        Some(l) => {
            if l > 0 {
                let total = l / 1_000_000;
                assert(total * 1_000_000 <= l < (total + 1) * 1_000_000);
                match position_micros {
                    Some(p) => {
                        if 0 <= p <= l {
                            assert(p / 1_000_000 <= l / 1_000_000) by {
                                vstd::arithmetic::div_mod::lemma_div_is_ordered(
                                    p as int,
                                    l as int,
                                    1_000_000,
                                );
                            }
                        }
                    },
                    None => {},
                }
            }
        },
        None => {},
    }
}

/// Without a recent click the dashboard lists the live players as they
/// are; right after one, it keeps its own entries in place, each taking
/// the live player at its index (keeping the playing flag the click set)
/// exactly when that live player has the same bus name.
pub proof fn lemma_sync_players(old_bus: Seq<String>, live_bus: Seq<String>, recent: bool)
    ensures
        (!recent || old_bus.len() == 0) ==> sync_players_spec(old_bus, live_bus, recent).len()
            == live_bus.len() && forall|i: int|
            0 <= i < live_bus.len() ==> #[trigger] sync_players_spec(old_bus, live_bus, recent)[i]
                == PlayerSource::Live(i as usize),
        (recent && old_bus.len() > 0) ==> sync_players_spec(old_bus, live_bus, recent).len()
            == old_bus.len() && forall|i: int|
            0 <= i < old_bus.len() ==> (#[trigger] sync_players_spec(old_bus, live_bus, recent)[i]
                == if i < live_bus.len() && old_bus[i]@ == live_bus[i]@ {
                PlayerSource::LiveKeepPlaying(i as usize)
            } else {
                PlayerSource::Kept(i as usize)
            }),
{
}

} // verus!
