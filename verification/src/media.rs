//! Media players of the session.

use vstd::prelude::*;

use crate::activity::model::Measure;
use crate::model::{MediaPlayer, MediaPlayerModel, MediaState, MediaStateModel};
use crate::properties::{
    number_under, property_i64, property_string_or_empty, property_strings, text_or_empty,
    text_under, texts_under, Property,
};
use crate::record::Record;
use crate::sorting::{sorted, sorting_orders_and_keeps_items, stable_sort, Order};
use crate::text::{
    ascii_upper_text, chars_of, contains_name, equals_ignoring_case, has_prefix, joined, joined3, lowercase,
    parts_are_found, same_ignoring_case, same_text, slice_chars, starts_with, text_less, text_lt, text_lt_asymmetric, text_lt_total,
    text_lt_transitive, text_of, to_lowercase,
};

verus! {

/// What the names of players begin with.
pub const PREFIX: &'static str = "org.mpris.MediaPlayer2.";

/// The furthest that a player is asked to jump, in seconds: a day.
pub const MAX_SEEK_SECONDS: i64 = 86_400;

// Reading

/// What a player tells of itself, where it does.
#[derive(Debug, PartialEq, Eq)]
pub struct PlayerReading {
    pub name: String,
    pub identity: Option<String>,
    pub desktop_entry: Option<String>,
    pub playback_status: Option<String>,
    pub metadata: Vec<Property>,
    pub position_us: Option<i64>,
    pub playback_rate: Measure,
    pub can_control: bool,
    pub can_play: bool,
    pub can_pause: bool,
    pub can_next: bool,
    pub can_previous: bool,
}

/// A name without the prefix of players, however often it stands there.
pub open spec fn short_name(name: Seq<char>) -> Seq<char>
    decreases name.len(),
    via short_name_decreases
{
    if has_prefix(name, PREFIX@) {
        short_name(name.skip(PREFIX@.len() as int))
    } else {
        name
    }
}

#[via_fn]
proof fn short_name_decreases(name: Seq<char>) {
    reveal_strlit("org.mpris.MediaPlayer2.");
    assert(PREFIX@.len() > 0);
}

fn shorten(name: &str) -> (short: String)
    ensures
        short@ == short_name(name@),
{
    let mut rest: String = name.to_string();
    let length: usize = chars_of(PREFIX).len();
    while starts_with(rest.as_str(), PREFIX)
        invariant
            length == PREFIX@.len(),
            short_name(name@) == short_name(rest@),
        decreases rest@.len(),
    {
        proof {
            reveal_strlit("org.mpris.MediaPlayer2.");
            assert(PREFIX@.len() > 0);
        }
        let chars = chars_of(rest.as_str());
        let ghost before = rest@;
        rest = text_of(&slice_chars(&chars, length, chars.len()));
        assert(rest@ =~= before.skip(length as int));
    }
    rest
}

/// Texts with a separator between them.
pub open spec fn list_text(texts: Seq<Seq<char>>) -> Seq<char>
    decreases texts.len(),
{
    if texts.len() == 0 {
        Seq::empty()
    } else if texts.len() == 1 {
        texts[0]
    } else {
        list_text(texts.drop_last()) + ", "@ + texts.last()
    }
}

fn list(texts: &Vec<String>) -> (text: String)
    ensures
        text@ == list_text(texts.deep_view()),
{
    let ghost all = texts.deep_view();
    if texts.len() == 0 {
        return String::new();
    }
    let mut text = texts[0].clone();
    let mut i: usize = 1;
    assert(all.take(1)[0] == texts@[0]@);
    while i < texts.len()
        invariant
            1 <= i <= texts@.len(),
            all == texts.deep_view(),
            text@ == list_text(all.take(i as int)),
        decreases texts@.len() - i,
    {
        assert(all.take(i + 1).drop_last() =~= all.take(i as int));
        assert(all.take(i + 1).last() == texts@[i as int]@);
        text = joined3(text.as_str(), ", ", texts[i].as_str());
        i = i + 1;
    }
    assert(all.take(i as int) =~= all);
    text
}

/// A time that is not negative.
pub open spec fn not_negative(time: Option<i64>) -> u64 {
    match time {
        Some(time) => if time > 0 {
            time as u64
        } else {
            0
        },
        None => 0,
    }
}

fn clamp_time(time: Option<i64>) -> (result: u64)
    ensures
        result == not_negative(time),
{
    match time {
        Some(time) => if time > 0 {
            time as u64
        } else {
            0
        },
        None => 0,
    }
}

/// A text, or another where there is none.
pub open spec fn text_or(text: Option<String>, otherwise: Seq<char>) -> Seq<char> {
    match text {
        Some(text) => text@,
        None => otherwise,
    }
}

/// A player, given its status in lower case and the time at which it was asked.
pub open spec fn player_of(reading: PlayerReading, status: Seq<char>, now: u64) -> MediaPlayerModel {
    let metadata = reading.metadata.deep_view();
    MediaPlayerModel {
        id: reading.name@,
        identity: text_or(reading.identity, short_name(reading.name@)),
        desktop_entry: text_or(reading.desktop_entry, Seq::empty()),
        playback_status: status,
        title: text_or_empty(metadata, "xesam:title"@),
        artist: list_text(texts_under(metadata, "xesam:artist"@)),
        album: text_or_empty(metadata, "xesam:album"@),
        art_url: text_or_empty(metadata, "mpris:artUrl"@),
        length_us: not_negative(number_under(metadata, "mpris:length"@)),
        position_us: not_negative(reading.position_us),
        position_observed_at_unix_ms: now,
        playback_rate: reading.playback_rate,
        can_control: reading.can_control,
        can_play: reading.can_play,
        can_pause: reading.can_pause,
        can_next: reading.can_next,
        can_previous: reading.can_previous,
    }
}

/// A player, given its status in lower case and the time at which it was asked.
pub fn read_player_in(reading: PlayerReading, status: String, now: u64) -> (player: MediaPlayer)
    ensures
        player.deep_view() == player_of(reading, status@, now),
{
    let title = property_string_or_empty(&reading.metadata, "xesam:title");
    let artist = list(&property_strings(&reading.metadata, "xesam:artist"));
    let album = property_string_or_empty(&reading.metadata, "xesam:album");
    let art_url = property_string_or_empty(&reading.metadata, "mpris:artUrl");
    let length_us: u64 = clamp_time(property_i64(&reading.metadata, "mpris:length"));
    let identity = match reading.identity {
        Some(identity) => identity,
        None => shorten(reading.name.as_str()),
    };
    let desktop_entry = match reading.desktop_entry {
        Some(entry) => entry,
        None => String::new(),
    };
    MediaPlayer {
        id: reading.name,
        identity,
        desktop_entry,
        playback_status: status,
        title,
        artist,
        album,
        art_url,
        length_us,
        position_us: clamp_time(reading.position_us),
        position_observed_at_unix_ms: now,
        playback_rate: reading.playback_rate,
        can_control: reading.can_control,
        can_play: reading.can_play,
        can_pause: reading.can_pause,
        can_next: reading.can_next,
        can_previous: reading.can_previous,
    }
}

/// The status of a player as it tells it: stopped where it does not.
pub open spec fn raw_status(reading: PlayerReading) -> Seq<char> {
    text_or(reading.playback_status, "Stopped"@)
}

/// A player, asked at a time.
pub fn read_player(reading: PlayerReading, now: u64) -> (player: MediaPlayer)
    ensures
        player.deep_view() == player_of(reading, lowercase(raw_status(reading)), now),
{
    let status = match &reading.playback_status {
        Some(status) => to_lowercase(status.as_str()),
        None => to_lowercase("Stopped"),
    };
    read_player_in(reading, status, now)
}

/// Players by name, whatever its case, then by id.
pub struct PlayerOrder;

/// Whether a player comes before another.
pub open spec fn player_before(a: MediaPlayerModel, b: MediaPlayerModel) -> bool {
    ||| text_lt(lowercase(a.identity), lowercase(b.identity))
    ||| lowercase(a.identity) == lowercase(b.identity) && text_lt(a.id, b.id)
}

impl Order<MediaPlayer> for PlayerOrder {
    open spec fn before(a: MediaPlayerModel, b: MediaPlayerModel) -> bool {
        player_before(a, b)
    }

    proof fn asymmetric(a: MediaPlayerModel, b: MediaPlayerModel) {
        text_lt_asymmetric(lowercase(a.identity), lowercase(b.identity));
        text_lt_asymmetric(lowercase(a.identity), lowercase(a.identity));
        text_lt_asymmetric(a.id, b.id);
    }

    proof fn weak(a: MediaPlayerModel, b: MediaPlayerModel, c: MediaPlayerModel) {
        let x = lowercase(a.identity);
        let y = lowercase(b.identity);
        let z = lowercase(c.identity);
        text_lt_total(x, y);
        text_lt_total(y, z);
        text_lt_asymmetric(x, z);
        text_lt_asymmetric(z, z);
        if text_lt(x, y) && text_lt(y, z) {
            text_lt_transitive(x, y, z);
        }
        text_lt_total(a.id, b.id);
        text_lt_total(b.id, c.id);
        text_lt_asymmetric(a.id, c.id);
        text_lt_asymmetric(c.id, c.id);
        if text_lt(a.id, b.id) && text_lt(b.id, c.id) {
            text_lt_transitive(a.id, b.id, c.id);
        }
    }

    fn is_before(a: &MediaPlayer, b: &MediaPlayer) -> (result: bool) {
        let left = to_lowercase(a.identity.as_str());
        let right = to_lowercase(b.identity.as_str());
        text_less(left.as_str(), right.as_str()) || (left == right && text_less(
            a.id.as_str(),
            b.id.as_str(),
        ))
    }
}

/// Players in the order in which they are shown.
pub fn sort_players(players: Vec<MediaPlayer>) -> (result: Vec<MediaPlayer>)
    ensures
        result.deep_view() == sorted::<MediaPlayer, PlayerOrder>(players.deep_view()),
{
    stable_sort::<MediaPlayer, PlayerOrder>(players)
}

// Choosing

/// What a player is looked for by.
#[derive(Clone, Copy, Debug, PartialEq, Eq, Structural)]
pub enum PlayerTrait {
    Playing,
    Spotify,
    Controllable,
}

impl DeepView for PlayerTrait {
    type V = PlayerTrait;

    open spec fn deep_view(&self) -> PlayerTrait {
        *self
    }
}

impl Record for PlayerTrait {
    fn same(&self, other: &Self) -> (same: bool) {
        *self == *other
    }

    fn copy(&self) -> (copy: Self) {
        *self
    }
}

/// Whether a player has a trait.
pub open spec fn has_trait(player: MediaPlayerModel, wanted: PlayerTrait) -> bool {
    match wanted {
        PlayerTrait::Playing => player.playback_status == "playing"@,
        PlayerTrait::Spotify => same_ignoring_case(player.desktop_entry, "spotify"@)
            || same_ignoring_case(player.identity, "spotify"@),
        PlayerTrait::Controllable => player.can_control,
    }
}

/// The place of the first player with a trait, or the number of players.
pub open spec fn place_with(players: Seq<MediaPlayerModel>, wanted: PlayerTrait) -> nat
    decreases players.len(),
{
    if players.len() == 0 || has_trait(players[0], wanted) {
        0
    } else {
        1 + place_with(players.skip(1), wanted)
    }
}

/// The player to show: the first that plays, else the first that is Spotify,
/// else the first that can be controlled, else the first.
pub open spec fn active_of(players: Seq<MediaPlayerModel>) -> Option<MediaPlayerModel> {
    if players.len() == 0 {
        None
    } else if place_with(players, PlayerTrait::Playing) < players.len() {
        Some(players[place_with(players, PlayerTrait::Playing) as int])
    } else if place_with(players, PlayerTrait::Spotify) < players.len() {
        Some(players[place_with(players, PlayerTrait::Spotify) as int])
    } else if place_with(players, PlayerTrait::Controllable) < players.len() {
        Some(players[place_with(players, PlayerTrait::Controllable) as int])
    } else {
        Some(players[0])
    }
}

fn matches_trait(player: &MediaPlayer, wanted: PlayerTrait) -> (result: bool)
    ensures
        result == has_trait(player.deep_view(), wanted),
{
    match wanted {
        PlayerTrait::Playing => same_text(player.playback_status.as_str(), "playing"),
        PlayerTrait::Spotify => equals_ignoring_case(player.desktop_entry.as_str(), "spotify")
            || equals_ignoring_case(player.identity.as_str(), "spotify"),
        PlayerTrait::Controllable => player.can_control,
    }
}

fn find_with(players: &Vec<MediaPlayer>, wanted: PlayerTrait) -> (at: usize)
    ensures
        at == place_with(players.deep_view(), wanted),
        at <= players@.len(),
{
    let ghost all = players.deep_view();
    let mut at: usize = 0;
    assert(all.skip(0) =~= all);
    while at < players.len()
        invariant
            at <= players@.len(),
            all == players.deep_view(),
            place_with(all, wanted) == at + place_with(all.skip(at as int), wanted),
        decreases players@.len() - at,
    {
        assert(all.skip(at as int)[0] == players@[at as int].deep_view());
        if matches_trait(&players[at], wanted) {
            return at;
        }
        assert(all.skip(at as int).skip(1) =~= all.skip(at + 1));
        at = at + 1;
    }
    at
}

fn find_active(players: &Vec<MediaPlayer>) -> (at: usize)
    requires
        players@.len() > 0,
    ensures
        at < players@.len(),
        active_of(players.deep_view()) == Some(players@[at as int].deep_view()),
{
    assert(players.deep_view().len() == players@.len());
    let playing: usize = find_with(players, PlayerTrait::Playing);
    if playing < players.len() {
        return playing;
    }
    let spotify: usize = find_with(players, PlayerTrait::Spotify);
    if spotify < players.len() {
        return spotify;
    }
    let controllable: usize = find_with(players, PlayerTrait::Controllable);
    if controllable < players.len() {
        return controllable;
    }
    0
}

/// Picks the player to show.
pub fn select_active_player(players: &Vec<MediaPlayer>) -> (player: Option<&MediaPlayer>)
    ensures
        match player {
            Some(player) => active_of(players.deep_view()) == Some(player.deep_view()),
            None => active_of(players.deep_view()) is None,
        },
{
    if players.len() == 0 {
        return None;
    }
    let at: usize = find_active(players);
    Some(&players[at])
}

/// The place of the first player with an id, or the number of players.
pub open spec fn player_position(players: Seq<MediaPlayerModel>, id: Seq<char>) -> nat
    decreases players.len(),
{
    if players.len() == 0 || players[0].id == id {
        0
    } else {
        1 + player_position(players.skip(1), id)
    }
}

/// The id of the player behind another, the first behind the last. There is
/// none without an alternative.
pub open spec fn next_id(players: Seq<MediaPlayerModel>, current: Option<Seq<char>>) -> Option<
    Seq<char>,
> {
    if players.len() < 2 {
        None
    } else {
        match current {
            Some(id) => {
                let at = player_position(players, id) as int;
                if at + 1 < players.len() {
                    Some(players[at + 1].id)
                } else {
                    Some(players[0].id)
                }
            },
            None => Some(players[0].id),
        }
    }
}

fn find_player(players: &Vec<MediaPlayer>, id: &str) -> (at: usize)
    ensures
        at == player_position(players.deep_view(), id@),
        at <= players@.len(),
{
    let ghost all = players.deep_view();
    let mut at: usize = 0;
    assert(all.skip(0) =~= all);
    while at < players.len()
        invariant
            at <= players@.len(),
            all == players.deep_view(),
            player_position(all, id@) == at + player_position(all.skip(at as int), id@),
        decreases players@.len() - at,
    {
        assert(all.skip(at as int)[0] == players@[at as int].deep_view());
        if same_text(players[at].id.as_str(), id) {
            return at;
        }
        assert(all.skip(at as int).skip(1) =~= all.skip(at + 1));
        at = at + 1;
    }
    at
}

/// The id of the player behind another.
pub fn next_player_id(players: &Vec<MediaPlayer>, current: Option<&str>) -> (id: Option<String>)
    ensures
        id.deep_view() == next_id(
            players.deep_view(),
            match current {
                Some(id) => Some(id@),
                None => None,
            },
        ),
{
    let count: usize = players.len();
    assert(players.deep_view().len() == count);
    if count < 2 {
        return None;
    }
    let mut next: usize = 0;
    if let Some(id) = current {
        let at: usize = find_player(players, id);
        if at < count - 1 {
            next = at + 1;
        }
    }
    assert(players.deep_view()[next as int] == players@[next as int].deep_view());
    Some(players[next].id.clone())
}

/// The player that the user picked, where the user did.
pub struct MediaService {
    selected_player: Option<String>,
}

impl View for MediaService {
    type V = Option<Seq<char>>;

    closed spec fn view(&self) -> Option<Seq<char>> {
        self.selected_player.deep_view()
    }
}

/// The sentence that reports that there is no other player.
pub const NO_ALTERNATIVE: &'static str = "no alternate MPRIS player is available";

/// What the user picked, as long as it is there.
pub open spec fn kept_choice(choice: Option<Seq<char>>, players: Seq<MediaPlayerModel>) -> Option<
    Seq<char>,
> {
    match choice {
        Some(id) => if player_position(players, id) < players.len() {
            Some(id)
        } else {
            None
        },
        None => None,
    }
}

/// The state to show of players, given what the user picked.
pub open spec fn state_of(choice: Option<Seq<char>>, players: Seq<MediaPlayerModel>)
    -> MediaStateModel {
    MediaStateModel {
        available: players.len() > 0,
        active_player: match kept_choice(choice, players) {
            Some(id) => Some(id),
            None => match active_of(players) {
                Some(player) => Some(player.id),
                None => None,
            },
        },
        players,
        error: None,
    }
}

impl MediaService {
    /// The user has not picked a player.
    pub fn new() -> (service: MediaService)
        ensures
            service@ is None,
    {
        MediaService { selected_player: None }
    }

    /// Lets the user pick the next player. Gives the state to show, where there is another one.
    pub fn cycle(&mut self, state: MediaState) -> (result: Option<MediaState>)
        ensures
            ({
                let next = next_id(state.deep_view().players, state.deep_view().active_player);
                match result {
                    Some(result) => next is Some && final(self)@ == next && result.deep_view() == (
                    MediaStateModel { active_player: next, ..state.deep_view() }),
                    None => next is None && final(self)@ == old(self)@,
                }
            }),
    {
        let next = match &state.active_player {
            Some(id) => next_player_id(&state.players, Some(id.as_str())),
            None => next_player_id(&state.players, None),
        };
        match next {
            Some(next) => {
                self.selected_player = Some(next.clone());
                Some(MediaState { active_player: Some(next), ..state })
            },
            None => None,
        }
    }

    /// The state to show of players. What the user picked counts as long as it is there.
    pub fn publish(&mut self, players: Vec<MediaPlayer>) -> (state: MediaState)
        ensures
            state.deep_view() == state_of(old(self)@, players.deep_view()),
            final(self)@ == kept_choice(old(self)@, players.deep_view()),
    {
        assert(players.deep_view().len() == players@.len());
        let mut kept: Option<String> = None;
        if let Some(id) = &self.selected_player {
            let at: usize = find_player(&players, id.as_str());
            if at < players.len() {
                kept = Some(id.clone());
            }
        }
        self.selected_player = kept.copy();
        let active_player = if kept.is_some() {
            kept
        } else {
            match select_active_player(&players) {
                Some(player) => Some(player.id.clone()),
                None => None,
            }
        };
        MediaState { available: players.len() > 0, active_player, players, error: None }
    }
}

/// A player that the user picked stays the one that is shown while it is there,
/// whatever plays.
pub proof fn picked_player_stays(
    choice: Seq<char>,
    players: Seq<MediaPlayerModel>,
)
    requires
        player_position(players, choice) < players.len(),
    ensures
        state_of(Some(choice), players).active_player == Some(choice),
        kept_choice(Some(choice), players) == Some(choice),
{
}

proof fn lemma_player_position(players: Seq<MediaPlayerModel>, at: int)
    requires
        0 <= at < players.len(),
        forall|i: int, j: int| 0 <= i < j < players.len() ==> #[trigger] players[i].id
            != #[trigger] players[j].id,
    ensures
        player_position(players, players[at].id) == at,
    decreases at,
{
    if at > 0 {
        let rest = players.skip(1);
        assert(players[0].id != players[at].id);
        assert forall|i: int, j: int| 0 <= i < j < rest.len() implies #[trigger] rest[i].id
            != #[trigger] rest[j].id by {
            assert(players[i + 1].id != players[j + 1].id);
        }
        lemma_player_position(rest, at - 1);
    }
}

/// Going from player to player reaches each of them: from the one at any place
/// the next is the one behind it, and from the last the first.
pub proof fn cycling_goes_round(players: Seq<MediaPlayerModel>, at: int)
    requires
        players.len() >= 2,
        0 <= at < players.len(),
        forall|i: int, j: int| 0 <= i < j < players.len() ==> #[trigger] players[i].id
            != #[trigger] players[j].id,
    ensures
        next_id(players, Some(players[at].id)) == Some(
            if at + 1 < players.len() {
                players[at + 1].id
            } else {
                players[0].id
            },
        ),
{
    lemma_player_position(players, at);
}

// Operating

/// The method that an operation calls.
pub open spec fn method_of(operation: Seq<char>) -> Option<Seq<char>> {
    if operation == "play-pause"@ {
        Some("PlayPause"@)
    } else if operation == "play"@ {
        Some("Play"@)
    } else if operation == "pause"@ {
        Some("Pause"@)
    } else if operation == "stop"@ {
        Some("Stop"@)
    } else if operation == "next"@ {
        Some("Next"@)
    } else if operation == "previous"@ {
        Some("Previous"@)
    } else {
        None
    }
}

/// Finds the method that an operation calls.
pub fn operation_method(operation: &str) -> (method: Result<&'static str, String>)
    ensures
        match method {
            Ok(method) => method_of(operation@) == Some(method@),
            Err(message) => method_of(operation@) is None && message@
                == "unsupported media operation: "@ + operation@,
        },
{
    if same_text(operation, "play-pause") {
        Ok("PlayPause")
    } else if same_text(operation, "play") {
        Ok("Play")
    } else if same_text(operation, "pause") {
        Ok("Pause")
    } else if same_text(operation, "stop") {
        Ok("Stop")
    } else if same_text(operation, "next") {
        Ok("Next")
    } else if same_text(operation, "previous") {
        Ok("Previous")
    } else {
        Err(joined("unsupported media operation: ", operation))
    }
}

/// The sentence that refuses an offset.
pub const INVALID_SEEK: &'static str =
    "MPRIS seek offset must be between -86400 and 86400 seconds and nonzero";

/// An offset in microseconds. There is none for an offset of nothing or of more than a day.
pub fn seek_offset_microseconds(offset_seconds: i64) -> (offset: Result<i64, &'static str>)
    ensures
        match offset {
            Ok(offset) => offset_seconds != 0 && -MAX_SEEK_SECONDS <= offset_seconds
                <= MAX_SEEK_SECONDS && offset == offset_seconds * 1_000_000,
            Err(message) => (offset_seconds == 0 || offset_seconds < -MAX_SEEK_SECONDS
                || offset_seconds > MAX_SEEK_SECONDS) && message@ == INVALID_SEEK@,
        },
{
    if offset_seconds == 0 || offset_seconds < -MAX_SEEK_SECONDS || offset_seconds
        > MAX_SEEK_SECONDS {
        return Err(INVALID_SEEK);
    }
    Ok(offset_seconds * 1_000_000)
}

/// Whether a name on the message bus is that of a player.
pub fn is_player_name(name: &str) -> (is_player: bool)
    ensures
        is_player == has_prefix(name@, PREFIX@),
{
    starts_with(name, PREFIX)
}

/// The player that a request is about: the one that it names, where it is
/// there, else the one that is shown.
pub fn resolve_player(names: &Vec<String>, requested: Option<&str>, players: &Vec<MediaPlayer>) -> (id:
    Result<String, &'static str>)
    ensures
        match requested {
            Some(requested) => match id {
                Ok(id) => names.deep_view().contains(requested@) && id@ == requested@,
                Err(message) => !names.deep_view().contains(requested@) && message@
                    == "requested MPRIS player is unavailable"@,
            },
            None => match id {
                Ok(id) => active_of(players.deep_view()) matches Some(player) && player.id == id@,
                Err(message) => active_of(players.deep_view()) is None && message@
                    == "no MPRIS player is available"@,
            },
        },
{
    match requested {
        Some(requested) => if contains_name(names, requested) {
            Ok(requested.to_string())
        } else {
            Err("requested MPRIS player is unavailable")
        },
        None => match select_active_player(players) {
            Some(player) => Ok(player.id.clone()),
            None => Err("no MPRIS player is available"),
        },
    }
}

// Laws

/// Every operation calls the method of its own name: the method is spelt as the
/// operation is, but for hyphens and case. The operations are these six.
pub proof fn operations_call_what_they_name(operation: Seq<char>)
    ensures
        method_of(operation) matches Some(method) ==> same_ignoring_case(
            method,
            operation.filter(|c: char| c != '-'),
        ),
        operation == "play"@ ==> method_of(operation) == Some("Play"@),
        operation == "pause"@ ==> method_of(operation) == Some("Pause"@),
        operation == "stop"@ ==> method_of(operation) == Some("Stop"@),
        operation == "next"@ ==> method_of(operation) == Some("Next"@),
        operation == "previous"@ ==> method_of(operation) == Some("Previous"@),
        operation == "play-pause"@ ==> method_of(operation) == Some("PlayPause"@),
        method_of(operation) is Some ==> operation == "play"@ || operation == "pause"@ || operation
            == "stop"@ || operation == "next"@ || operation == "previous"@ || operation
            == "play-pause"@,
{
    reveal_strlit("play-pause");
    reveal_strlit("play");
    reveal_strlit("pause");
    reveal_strlit("stop");
    reveal_strlit("next");
    reveal_strlit("previous");
    reveal_strlit("PlayPause");
    reveal_strlit("Play");
    reveal_strlit("Pause");
    reveal_strlit("Stop");
    reveal_strlit("Next");
    reveal_strlit("Previous");
    assert("play-pause"@.len() == 10 && "play"@.len() == 4 && "pause"@.len() == 5);
    assert("stop"@.len() == 4 && "next"@.len() == 4 && "previous"@.len() == 8);
    assert("play"@[0] == 'p' && "stop"@[0] == 's' && "next"@[0] == 'n');
    if operation == "play-pause"@ {
        lemma_play_pause();
    } else if method_of(operation) is Some {
        lemma_filter_all(operation, |c: char| c != '-');
        let method = method_of(operation)->0;
        assert(ascii_upper_text(method) =~= ascii_upper_text(operation));
    }
}

proof fn lemma_play_pause()
    ensures
        same_ignoring_case("PlayPause"@, "play-pause"@.filter(|c: char| c != '-')),
{
    reveal_strlit("play-pause");
    reveal_strlit("PlayPause");
    let wanted = |c: char| c != '-';
    let start = seq!['p', 'l', 'a', 'y'];
    let end = seq!['p', 'a', 'u', 's', 'e'];
    assert("play-pause"@ =~= start.push('-') + end);
    lemma_filter_all(start, wanted);
    lemma_filter_push(start, '-', wanted);
    lemma_filter_all(end, wanted);
    lemma_filter_joined(start.push('-'), end, wanted);
    assert(ascii_upper_text("PlayPause"@) =~= ascii_upper_text(start + end));
}

proof fn lemma_filter_joined(a: Seq<char>, b: Seq<char>, wanted: spec_fn(char) -> bool)
    ensures
        (a + b).filter(wanted) == a.filter(wanted) + b.filter(wanted),
    decreases b.len(),
{
    reveal(Seq::filter);
    if b.len() == 0 {
        assert(a + b =~= a);
        assert(a.filter(wanted) + b.filter(wanted) =~= a.filter(wanted));
    } else {
        lemma_filter_joined(a, b.drop_last(), wanted);
        assert((a + b).drop_last() =~= a + b.drop_last());
        assert((a + b).filter(wanted) =~= a.filter(wanted) + b.filter(wanted));
    }
}

proof fn lemma_filter_push(text: Seq<char>, c: char, wanted: spec_fn(char) -> bool)
    ensures
        text.push(c).filter(wanted) == if wanted(c) {
            text.filter(wanted).push(c)
        } else {
            text.filter(wanted)
        },
{
    reveal(Seq::filter);
    assert(text.push(c).drop_last() =~= text);
}

proof fn lemma_filter_all(text: Seq<char>, wanted: spec_fn(char) -> bool)
    requires
        forall|i: int| 0 <= i < text.len() ==> wanted(#[trigger] text[i]),
    ensures
        text.filter(wanted) == text,
    decreases text.len(),
{
    reveal(Seq::filter);
    if text.len() > 0 {
        let shorter = text.drop_last();
        assert forall|i: int| 0 <= i < shorter.len() implies wanted(#[trigger] shorter[i]) by {
            assert(shorter[i] == text[i]);
        }
        lemma_filter_all(shorter, wanted);
        assert(shorter.push(text.last()) =~= text);
        assert(wanted(text[text.len() - 1]));
    }
}

proof fn lemma_place(players: Seq<MediaPlayerModel>, wanted: PlayerTrait)
    ensures
        place_with(players, wanted) <= players.len(),
        forall|i: int|
            0 <= i < place_with(players, wanted) ==> !has_trait(#[trigger] players[i], wanted),
        place_with(players, wanted) < players.len() ==> has_trait(
            players[place_with(players, wanted) as int],
            wanted,
        ),
    decreases players.len(),
{
    if players.len() > 0 && !has_trait(players[0], wanted) {
        let rest = players.skip(1);
        lemma_place(rest, wanted);
        assert forall|i: int| 0 <= i < place_with(players, wanted) implies !has_trait(
            #[trigger] players[i],
            wanted,
        ) by {
            if i > 0 {
                assert(players[i] == rest[i - 1]);
            }
        }
    }
}

proof fn lemma_position(players: Seq<MediaPlayerModel>, id: Seq<char>)
    ensures
        player_position(players, id) <= players.len(),
        forall|i: int|
            0 <= i < player_position(players, id) ==> (#[trigger] players[i]).id != id,
        player_position(players, id) < players.len() ==> players[player_position(
            players,
            id,
        ) as int].id == id,
    decreases players.len(),
{
    if players.len() > 0 && players[0].id != id {
        let rest = players.skip(1);
        lemma_position(rest, id);
        assert forall|i: int| 0 <= i < player_position(players, id) implies (
        #[trigger] players[i]).id != id by {
            if i > 0 {
                assert(players[i] == rest[i - 1]);
            }
        }
    }
}

/// The player that is shown where none was picked, or the one picked is gone:
/// the first that plays; where none plays the first that is Spotify; else the
/// first that can be controlled; else the first of all. There is one wherever
/// there are players.
pub proof fn playing_player_is_shown(
    choice: Option<Seq<char>>,
    players: Seq<MediaPlayerModel>,
    at: int,
)
    requires
        0 <= at < players.len(),
        choice matches Some(id) ==> forall|i: int|
            0 <= i < players.len() ==> (#[trigger] players[i]).id != id,
    ensures
        state_of(choice, players).active_player is Some,
        players[at].playback_status == "playing"@ && (forall|i: int|
            0 <= i < at ==> (#[trigger] players[i]).playback_status != "playing"@)
            ==> state_of(choice, players).active_player == Some(players[at].id),
        (forall|i: int|
            0 <= i < players.len() ==> (#[trigger] players[i]).playback_status != "playing"@) && (
        same_ignoring_case(players[at].desktop_entry, "spotify"@) || same_ignoring_case(
            players[at].identity,
            "spotify"@,
        )) && (forall|i: int|
            0 <= i < at ==> !same_ignoring_case((#[trigger] players[i]).desktop_entry, "spotify"@)
                && !same_ignoring_case(players[i].identity, "spotify"@)) ==> state_of(
            choice,
            players,
        ).active_player == Some(players[at].id),
        (forall|i: int|
            0 <= i < players.len() ==> (#[trigger] players[i]).playback_status != "playing"@
                && !same_ignoring_case(players[i].desktop_entry, "spotify"@)
                && !same_ignoring_case(players[i].identity, "spotify"@)) && players[at].can_control
            && (forall|i: int| 0 <= i < at ==> !(#[trigger] players[i]).can_control) ==> state_of(
            choice,
            players,
        ).active_player == Some(players[at].id),
        (forall|i: int|
            0 <= i < players.len() ==> (#[trigger] players[i]).playback_status != "playing"@
                && !same_ignoring_case(players[i].desktop_entry, "spotify"@)
                && !same_ignoring_case(players[i].identity, "spotify"@) && !players[i].can_control)
            ==> state_of(choice, players).active_player == Some(players[0].id),
{
    lemma_place(players, PlayerTrait::Playing);
    lemma_place(players, PlayerTrait::Spotify);
    lemma_place(players, PlayerTrait::Controllable);
    if let Some(id) = choice {
        lemma_position(players, id);
    }
    let p = place_with(players, PlayerTrait::Playing) as int;
    let s = place_with(players, PlayerTrait::Spotify) as int;
    let c = place_with(players, PlayerTrait::Controllable) as int;
    if p < players.len() {
        assert(has_trait(players[p], PlayerTrait::Playing));
    }
    if s < players.len() {
        assert(has_trait(players[s], PlayerTrait::Spotify));
    }
    if c < players.len() {
        assert(has_trait(players[c], PlayerTrait::Controllable));
    }
    assert(at < p ==> !has_trait(players[at], PlayerTrait::Playing));
    assert(at < s ==> !has_trait(players[at], PlayerTrait::Spotify));
    assert(at < c ==> !has_trait(players[at], PlayerTrait::Controllable));
}

/// All players are shown as they were found, and a player that was picked is
/// the one shown as long as it is among them.
pub proof fn picked_player_is_shown_while_it_is_there(
    choice: Seq<char>,
    players: Seq<MediaPlayerModel>,
    at: int,
)
    requires
        0 <= at < players.len(),
        players[at].id == choice,
    ensures
        state_of(Some(choice), players).active_player == Some(choice),
        state_of(Some(choice), players).players == players,
        state_of(Some(choice), players).available,
        state_of(Some(choice), players).error is None,
        !state_of(Some(choice), Seq::empty()).available,
        state_of(Some(choice), Seq::empty()).active_player is None,
{
    lemma_position(players, choice);
}

/// What is shown of a player is what it told: each part under its own name, its
/// artists behind each other, and no time before the start.
pub proof fn player_shows_what_it_told(reading: PlayerReading, status: Seq<char>, now: u64)
    ensures
        ({
            let player = player_of(reading, status, now);
            let metadata = reading.metadata.deep_view();
            &&& player.id == reading.name@
            &&& player.playback_status == status
            &&& reading.identity matches Some(identity) ==> player.identity == identity@
            &&& reading.desktop_entry matches Some(entry) ==> player.desktop_entry == entry@
            &&& reading.desktop_entry is None ==> player.desktop_entry.len() == 0
            &&& text_under(metadata, "xesam:title"@) matches Some(title) ==> player.title == title
            &&& text_under(metadata, "xesam:title"@) is None ==> player.title.len() == 0
            &&& text_under(metadata, "xesam:album"@) matches Some(album) ==> player.album == album
            &&& text_under(metadata, "mpris:artUrl"@) matches Some(url) ==> player.art_url == url
            &&& texts_under(metadata, "xesam:artist"@).len() == 1 ==> player.artist
                == texts_under(metadata, "xesam:artist"@)[0]
            &&& texts_under(metadata, "xesam:artist"@).len() == 2 ==> player.artist
                == texts_under(metadata, "xesam:artist"@)[0] + ", "@ + texts_under(
                metadata,
                "xesam:artist"@,
            )[1]
            &&& number_under(metadata, "mpris:length"@) matches Some(length) ==> (length >= 0
                ==> player.length_us == length) && (length < 0 ==> player.length_us == 0)
            &&& reading.position_us matches Some(position) ==> (position >= 0
                ==> player.position_us == position) && (position < 0 ==> player.position_us == 0)
            &&& player.position_observed_at_unix_ms == now
            &&& player.playback_rate == reading.playback_rate
            &&& player.can_control == reading.can_control
            &&& player.can_play == reading.can_play
            &&& player.can_pause == reading.can_pause
            &&& player.can_next == reading.can_next
            &&& player.can_previous == reading.can_previous
        }),
        raw_status(reading) == match reading.playback_status {
            Some(told) => told@,
            None => "Stopped"@,
        },
{
    let artists = texts_under(reading.metadata.deep_view(), "xesam:artist"@);
    if artists.len() == 2 {
        reveal_with_fuel(list_text, 2);
        assert(artists.drop_last()[0] == artists[0]);
    }
}

/// Players are listed by what they call themselves, whatever the case, and
/// those that call themselves alike by their bus names; none is lost or added.
pub proof fn players_are_listed_by_name(players: Seq<MediaPlayerModel>)
    ensures
        ({
            let listed = sorted::<MediaPlayer, PlayerOrder>(players);
            &&& listed.to_multiset() == players.to_multiset()
            &&& forall|i: int, j: int|
                0 <= i < j < listed.len() ==> {
                    let a = #[trigger] listed[i];
                    let b = #[trigger] listed[j];
                    &&& !text_lt(lowercase(b.identity), lowercase(a.identity))
                    &&& lowercase(a.identity) == lowercase(b.identity) ==> !text_lt(b.id, a.id)
                }
        }),
{
    sorting_orders_and_keeps_items::<MediaPlayer, PlayerOrder>(players);
    let listed = sorted::<MediaPlayer, PlayerOrder>(players);
    assert forall|i: int, j: int| 0 <= i < j < listed.len() implies {
        let a = #[trigger] listed[i];
        let b = #[trigger] listed[j];
        &&& !text_lt(lowercase(b.identity), lowercase(a.identity))
        &&& lowercase(a.identity) == lowercase(b.identity) ==> !text_lt(b.id, a.id)
    } by {
        assert(!PlayerOrder::before(listed[j], listed[i]));
    }
}

/// A player that does not tell what it is called is called by the end of its name
/// on the bus, behind what all players' names begin with.
pub proof fn players_are_called_by_their_bus_name(
    reading: PlayerReading,
    status: Seq<char>,
    now: u64,
    end: Seq<char>,
)
    requires
        reading.identity is None,
        !has_prefix(end, "org.mpris.MediaPlayer2."@),
    ensures
        reading.name@ == "org.mpris.MediaPlayer2."@ + end ==> player_of(
            reading,
            status,
            now,
        ).identity == end,
        !has_prefix(reading.name@, "org.mpris.MediaPlayer2."@) ==> player_of(
            reading,
            status,
            now,
        ).identity == reading.name@,
{
    let prefix = "org.mpris.MediaPlayer2."@;
    parts_are_found(Seq::empty(), prefix, end, prefix + end);
    assert((prefix + end).skip(prefix.len() as int) =~= end);
    assert(short_name(end) == end);
}

} // verus!
