//! The now-playing session: what Kodi's WebSocket notifications and replies
//! tell the remote about the item being played, and the requests the remote
//! sends back.

use vstd::prelude::*;
use vstd::string::*;

use crate::json::{get_in, opt_field, opt_int, opt_numeric, opt_text, parse_json, parsed_json, Json, JsonNumber};
use crate::rpc::{
    active_players_request, item_message, item_request, properties_message, properties_request,
    ws_url, active_players_message, websocket_url,
};
use crate::instance::Instance;

verus! {

/// The item being played as the window shows it. (The elapsed and total
/// times are kept beside it by the caller.)
#[derive(Debug)]
pub struct NowPlaying {
    pub title: String,
    pub artist: String,
    pub album: String,
    pub playing: bool,
}

/// What the now-playing information holds, as character sequences.
pub struct NowPlayingView {
    pub title: Seq<char>,
    pub artist: Seq<char>,
    pub album: Seq<char>,
    pub playing: bool,
}

impl View for NowPlaying {
    type V = NowPlayingView;

    open spec fn view(&self) -> NowPlayingView {
        NowPlayingView {
            title: self.title@,
            artist: self.artist@,
            album: self.album@,
            playing: self.playing,
        }
    }
}

impl NowPlayingView {
    /// Nothing playing: every text empty.
    pub open spec fn cleared() -> NowPlayingView {
        NowPlayingView {
            title: Seq::empty(),
            artist: Seq::empty(),
            album: Seq::empty(),
            playing: false,
        }
    }

    /// The same information with the playing flag set to `playing`.
    pub open spec fn with_playing(self, playing: bool) -> NowPlayingView {
        NowPlayingView { playing, ..self }
    }
}

/// The hours, minutes and seconds of a Kodi time object, each present only
/// when it is a number.
#[derive(Debug)]
pub struct TimeParts {
    pub hours: Option<JsonNumber>,
    pub minutes: Option<JsonNumber>,
    pub seconds: Option<JsonNumber>,
}

/// The parts of the time object `v`.
pub open spec fn time_parts(v: Json) -> TimeParts {
    TimeParts {
        hours: opt_numeric(v.field("hours"@)),
        minutes: opt_numeric(v.field("minutes"@)),
        seconds: opt_numeric(v.field("seconds"@)),
    }
}

/// The parts of an optional time object.
pub open spec fn opt_time_parts(v: Option<Json>) -> Option<TimeParts> {
    match v {
        Some(t) => Some(time_parts(t)),
        None => None,
    }
}

/// What the remote does after one message: the requests to send, in order,
/// and the changes to the elapsed and total times, applied in the order
/// reset, total time, elapsed time.
#[derive(Debug)]
pub struct Reply {
    pub requests: Vec<String>,
    pub reset_times: bool,
    pub duration: Option<TimeParts>,
    pub position: Option<TimeParts>,
}

/// One frame read from the WebSocket: a text frame with the JSON it holds
/// (nothing when it is not JSON), a close frame, a read error, or any other
/// frame.
#[derive(Debug)]
pub enum Frame {
    Text(Option<Json>),
    Close,
    Failed,
    Other,
}

/// What the connection does after a frame.
#[derive(Debug)]
pub enum Step {
    Continue(Reply),
    Stop,
}

/// The state of one WebSocket connection: the player that Kodi last named.
#[derive(Debug)]
pub struct Session {
    pub player_id: Option<i64>,
}

/// The texts of a list of strings.
pub open spec fn texts(v: Seq<String>) -> Seq<Seq<char>> {
    v.map_values(|s: String| s@)
}

/// The notification method of a message.
pub open spec fn method_of(msg: Json) -> Option<Seq<char>> {
    opt_text(msg.field("method"@))
}

/// Whether `m` says that playback started or resumed.
pub open spec fn is_start_event(m: Seq<char>) -> bool {
    m == "Player.OnPlay"@ || m == "Player.OnResume"@
}

/// Whether a message notifies that playback started or resumed.
pub open spec fn starts_playback(msg: Json) -> bool {
    match method_of(msg) {
        Some(m) => is_start_event(m),
        None => false,
    }
}

/// The player that a playback notification names, 0 when it names none.
pub open spec fn event_player(msg: Json) -> i64 {
    let data = opt_field(msg.field("params"@), "data"@);
    match opt_int(opt_field(opt_field(data, "player"@), "playerid"@)) {
        Some(p) => p,
        None => 0,
    }
}

/// The result of a reply.
pub open spec fn result_of(msg: Json) -> Option<Json> {
    msg.field("result"@)
}

/// Whether a result reports on playback: it holds an item, a total time or
/// an elapsed time.
pub open spec fn reports_playback(result: Json) -> bool {
    result.field("item"@) is Some || result.field("totaltime"@) is Some || result.field("time"@) is Some
}

/// The first active player of a reply listing active players.
pub open spec fn listed_player(msg: Json) -> Option<i64> {
    match result_of(msg) {
        Some(result) => if reports_playback(result) {
            None
        } else {
            match result.elements() {
                Some(players) => if players.len() > 0 {
                    opt_int(players[0].field("playerid"@))
                } else {
                    None
                },
                None => None,
            }
        },
        None => None,
    }
}

/// The requests a message calls for: after a playback notification, the
/// times (request 4) and the item (request 2) of its player; after a list
/// of active players, the times (request 5) and the item (request 6) of the
/// first one.
pub open spec fn requests_for(msg: Json) -> Seq<Seq<char>> {
    let on_event = if starts_playback(msg) {
        seq![properties_request(4, event_player(msg) as int), item_request(2, event_player(msg) as int)]
    } else {
        Seq::empty()
    };
    let on_list = match listed_player(msg) {
        Some(p) => seq![properties_request(5, p as int), item_request(6, p as int)],
        None => Seq::empty(),
    };
    on_event + on_list
}

/// The player a session remembers after a message.
pub open spec fn next_player(old: Option<i64>, msg: Json) -> Option<i64> {
    match listed_player(msg) {
        Some(p) => Some(p),
        None => if starts_playback(msg) {
            Some(event_player(msg))
        } else {
            old
        },
    }
}

/// The now-playing information after the notification part of a message:
/// playing after a start, paused after a pause, cleared after a stop.
pub open spec fn after_event(np: NowPlayingView, msg: Json) -> NowPlayingView {
    match method_of(msg) {
        Some(m) => if is_start_event(m) {
            np.with_playing(true)
        } else if m == "Player.OnPause"@ {
            np.with_playing(false)
        } else if m == "Player.OnStop"@ {
            NowPlayingView::cleared()
        } else {
            np
        },
        None => np,
    }
}

/// The text of a member, empty when it is missing or not a string.
pub open spec fn text_member(v: Json, key: Seq<char>) -> Seq<char> {
    match opt_text(v.field(key)) {
        Some(s) => s,
        None => Seq::empty(),
    }
}

/// The title of an item: its title, or its label when the title is empty.
pub open spec fn item_title(item: Json) -> Seq<char> {
    if text_member(item, "title"@).len() > 0 {
        text_member(item, "title"@)
    } else {
        text_member(item, "label"@)
    }
}

/// The artist of an item: the first of its artists, empty when it has none.
pub open spec fn item_artist(item: Json) -> Seq<char> {
    match opt_field(Some(item), "artist"@) {
        Some(a) => match a.elements() {
            Some(names) => if names.len() > 0 {
                match names[0].text() {
                    Some(s) => s,
                    None => Seq::empty(),
                }
            } else {
                Seq::empty()
            },
            None => Seq::empty(),
        },
        None => Seq::empty(),
    }
}

/// The now-playing information after the item of a result, if it has one.
pub open spec fn after_item(np: NowPlayingView, result: Option<Json>) -> NowPlayingView {
    match opt_field(result, "item"@) {
        Some(item) => NowPlayingView {
            title: item_title(item),
            artist: item_artist(item),
            album: text_member(item, "album"@),
            playing: true,
        },
        None => np,
    }
}

/// The time object that gives the elapsed time: `time`, else `position`.
pub open spec fn position_source(result: Option<Json>) -> Option<Json> {
    match opt_field(result, "time"@) {
        Some(t) => Some(t),
        None => opt_field(result, "position"@),
    }
}

/// The now-playing information after one message.
pub open spec fn next_now_playing(np: NowPlayingView, msg: Json) -> NowPlayingView {
    let after_items = after_item(after_event(np, msg), result_of(msg));
    if position_source(result_of(msg)) is Some {
        after_items.with_playing(true)
    } else {
        after_items
    }
}

/// The window title: the playing state, the title and the artist, or the
/// program's name when nothing plays.
pub open spec fn window_title_text(np: NowPlayingView) -> Seq<char> {
    if np.title.len() == 0 {
        "Koco - Kodi Control"@
    } else {
        let icon = if np.playing { "\u{25b6}"@ } else { "\u{23f8}"@ };
        let artist = if np.artist.len() > 0 { " - "@ + np.artist } else { Seq::empty() };
        icon + " "@ + np.title + artist + " - Koco"@
    }
}

proof fn lemma_stop_is_its_own_event()
    ensures
        "Player.OnPlay"@ != "Player.OnStop"@,
        "Player.OnResume"@ != "Player.OnStop"@,
        "Player.OnPause"@ != "Player.OnStop"@,
{
    reveal_strlit("Player.OnPlay");
    reveal_strlit("Player.OnResume");
    reveal_strlit("Player.OnPause");
    reveal_strlit("Player.OnStop");
    assert("Player.OnPlay"@[9] != "Player.OnStop"@[9]);
}

fn text_is(s: &String, literal: &str) -> (r: bool)
    ensures
        r == (s@ == literal@),
{
    *s == String::from_str(literal)
}

fn text_of(v: Option<&Json>) -> (r: String)
    ensures
        r@ == match v {
            Some(j) => match j.text() {
                Some(s) => s,
                None => Seq::empty(),
            },
            None => Seq::<char>::empty(),
        },
{
    match v {
        Some(j) => match j.as_str() {
            Some(s) => s.clone(),
            None => String::new(),
        },
        None => String::new(),
    }
}

impl JsonNumber {
    /// The same number.
    pub fn duplicate(&self) -> (r: JsonNumber)
        ensures
            r == *self,
    {
        match self {
            JsonNumber::PosInt(n) => JsonNumber::PosInt(*n),
            JsonNumber::NegInt(n) => JsonNumber::NegInt(*n),
            JsonNumber::Float(s) => JsonNumber::Float(s.clone()),
        }
    }
}

fn text_member_of(v: &Json, key: &str) -> (r: String)
    ensures
        r@ == text_member(*v, key@),
{
    text_of(v.get(key))
}

fn number_member(v: &Json, key: &str) -> (r: Option<JsonNumber>)
    ensures
        r == opt_numeric(v.field(key@)),
{
    match v.get(key) {
        Some(Json::Number(n)) => Some(n.duplicate()),
        _ => None,
    }
}

/// The parts of the time object `v`.
pub fn read_time_parts(v: &Json) -> (r: TimeParts)
    ensures
        r == time_parts(*v),
{
    TimeParts {
        hours: number_member(v, "hours"),
        minutes: number_member(v, "minutes"),
        seconds: number_member(v, "seconds"),
    }
}

impl Default for NowPlaying {
    fn default() -> (r: NowPlaying)
        ensures
            r@ == NowPlayingView::cleared(),
    {
        NowPlaying { title: String::new(), artist: String::new(), album: String::new(), playing: false }
    }
}

impl NowPlaying {
    /// Forgets the item: nothing plays.
    pub fn clear(&mut self)
        ensures
            final(self)@ == NowPlayingView::cleared(),
    {
        self.title = String::new();
        self.artist = String::new();
        self.album = String::new();
        self.playing = false;
    }

    /// The window title for this information.
    pub fn window_title(&self) -> (r: String)
        ensures
            r@ == window_title_text(self@),
    {
        if self.title.as_str().is_empty() {
            return String::from_str("Koco - Kodi Control");
        }
        let mut r = if self.playing {
            String::from_str("\u{25b6}")
        } else {
            String::from_str("\u{23f8}")
        };
        r.append(" ");
        r.append(self.title.as_str());
        if !self.artist.as_str().is_empty() {
            r.append(" - ");
            r.append(self.artist.as_str());
        }
        r.append(" - Koco");
        proof {
            let icon = if self@.playing { "\u{25b6}"@ } else { "\u{23f8}"@ };
            let artist = if self@.artist.len() > 0 { " - "@ + self@.artist } else { Seq::empty() };
            assert(r@ =~= icon + " "@ + self@.title + artist + " - Koco"@);
        }
        r
    }
}

/// After any message, the last request the remote sends asks for the item
/// of the player the session then remembers, and the one before it for that
/// player's times.
pub proof fn lemma_requests_follow_remembered_player(old_player: Option<i64>, msg: Json)
    requires
        requests_for(msg).len() > 0,
    ensures
        requests_for(msg).len() >= 2,
        next_player(old_player, msg) is Some,
        requests_for(msg).last() == item_request(
            if listed_player(msg) is Some { 6 } else { 2 },
            next_player(old_player, msg)->0 as int,
        ),
        requests_for(msg)[requests_for(msg).len() - 2] == properties_request(
            if listed_player(msg) is Some { 5 } else { 4 },
            next_player(old_player, msg)->0 as int,
        ),
{
}

/// A stop notification without a result clears the now-playing
/// information, resets the times, asks for nothing, and leaves the window
/// with the program's name as its title.
pub proof fn lemma_stop_clears(np: NowPlayingView, msg: Json)
    requires
        method_of(msg) == Some("Player.OnStop"@),
        result_of(msg) is None,
    ensures
        next_now_playing(np, msg) == NowPlayingView::cleared(),
        requests_for(msg).len() == 0,
        window_title_text(next_now_playing(np, msg)) == "Koco - Kodi Control"@,
{
    lemma_stop_is_its_own_event();
    reveal_strlit("Player.OnPause");
    reveal_strlit("Player.OnStop");
    assert("Player.OnPause"@ != "Player.OnStop"@);
    assert(requests_for(msg) =~= Seq::<Seq<char>>::empty());
}

/// A reply listing active players (and naming no notification method)
/// makes the session remember the first listed player, whatever its id, 0
/// included, and ask for that player's times (request 5) and item
/// (request 6); the now-playing information stays as it was.
pub proof fn lemma_active_players_reply(np: NowPlayingView, old_player: Option<i64>, msg: Json, result: Json, p: i64)
    requires
        msg.field("method"@) is None,
        msg.field("result"@) == Some(result),
        result.elements() is Some,
        result.elements()->0.len() > 0,
        opt_int(result.elements()->0[0].field("playerid"@)) == Some(p),
    ensures
        requests_for(msg) == seq![properties_request(5, p as int), item_request(6, p as int)],
        next_player(old_player, msg) == Some(p),
        next_now_playing(np, msg) == np,
{
    assert(result.field("item"@) is None);
    assert(result.field("totaltime"@) is None);
    assert(result.field("time"@) is None);
    assert(result.field("position"@) is None);
    assert(requests_for(msg) =~= seq![properties_request(5, p as int), item_request(6, p as int)]);
}

/// A reply whose result is an empty list, or a list whose first entry has
/// no integer player id, asks for nothing and keeps the remembered player.
pub proof fn lemma_no_listed_player(np: NowPlayingView, old_player: Option<i64>, msg: Json, result: Json)
    requires
        msg.field("method"@) is None,
        msg.field("result"@) == Some(result),
        result.elements() is Some,
        result.elements()->0.len() == 0 || opt_int(result.elements()->0[0].field("playerid"@)) is None,
    ensures
        requests_for(msg).len() == 0,
        next_player(old_player, msg) == old_player,
        next_now_playing(np, msg) == np,
{
    assert(result.field("item"@) is None);
    assert(result.field("time"@) is None);
    assert(result.field("position"@) is None);
}

/// A notification that playback started or resumed, without a result, sets
/// the playing flag (and nothing else of the information), makes the
/// session remember the notified player (0 when it names none), and asks
/// for that player's times (request 4) and item (request 2).
pub proof fn lemma_start_notification(np: NowPlayingView, old_player: Option<i64>, msg: Json)
    requires
        opt_text(msg.field("method"@)) == Some("Player.OnPlay"@)
            || opt_text(msg.field("method"@)) == Some("Player.OnResume"@),
        msg.field("result"@) is None,
    ensures
        ({
            let p = match opt_int(
                opt_field(opt_field(opt_field(msg.field("params"@), "data"@), "player"@), "playerid"@),
            ) {
                Some(id) => id,
                None => 0,
            };
            &&& requests_for(msg) == seq![properties_request(4, p as int), item_request(2, p as int)]
            &&& next_player(old_player, msg) == Some(p)
        }),
        next_now_playing(np, msg) == (NowPlayingView { playing: true, ..np }),
{
    assert(requests_for(msg) =~= seq![
        properties_request(4, event_player(msg) as int),
        item_request(2, event_player(msg) as int),
    ]);
}

/// A pause notification without a result clears only the playing flag,
/// asks for nothing and keeps the remembered player.
pub proof fn lemma_pause_notification(np: NowPlayingView, old_player: Option<i64>, msg: Json)
    requires
        opt_text(msg.field("method"@)) == Some("Player.OnPause"@),
        msg.field("result"@) is None,
    ensures
        next_now_playing(np, msg) == (NowPlayingView { playing: false, ..np }),
        requests_for(msg).len() == 0,
        next_player(old_player, msg) == old_player,
{
    reveal_strlit("Player.OnPlay");
    reveal_strlit("Player.OnResume");
    reveal_strlit("Player.OnPause");
    assert("Player.OnPause"@[10] != "Player.OnPlay"@[10]);
    assert(requests_for(msg) =~= Seq::<Seq<char>>::empty());
}

/// A reply carrying an item (and no notification method, nor elapsed time)
/// shows the item's title (its label when the title is empty or missing),
/// the first of its artists when that is a string, and its album, and marks
/// the item as playing. It asks for nothing.
pub proof fn lemma_item_reply(np: NowPlayingView, msg: Json, result: Json, item: Json)
    requires
        msg.field("method"@) is None,
        msg.field("result"@) == Some(result),
        result.field("item"@) == Some(item),
        result.field("time"@) is None,
        result.field("position"@) is None,
    ensures
        next_now_playing(np, msg).playing,
        match opt_text(item.field("title"@)) {
            Some(t) => t.len() > 0 ==> next_now_playing(np, msg).title == t,
            None => true,
        },
        (match opt_text(item.field("title"@)) {
            Some(t) => t.len() == 0,
            None => true,
        }) ==> next_now_playing(np, msg).title == match opt_text(item.field("label"@)) {
            Some(l) => l,
            None => Seq::<char>::empty(),
        },
        match item.field("artist"@) {
            Some(Json::Array(names)) => names@.len() > 0 && names@[0].text() is Some
                ==> next_now_playing(np, msg).artist == names@[0].text()->0,
            _ => next_now_playing(np, msg).artist.len() == 0,
        },
        next_now_playing(np, msg).album == match opt_text(item.field("album"@)) {
            Some(a) => a,
            None => Seq::<char>::empty(),
        },
        requests_for(msg).len() == 0,
{
    assert(requests_for(msg) =~= Seq::<Seq<char>>::empty());
}

/// A reply with an elapsed time (`time`, else `position`) marks the item as
/// playing and gives those parts as the new elapsed time; a total time gives
/// the new total time.
pub proof fn lemma_time_reply(np: NowPlayingView, msg: Json, result: Json)
    requires
        msg.field("method"@) is None,
        msg.field("result"@) == Some(result),
        result.field("item"@) is None,
        result.field("time"@) is Some || result.field("position"@) is Some,
    ensures
        next_now_playing(np, msg) == (NowPlayingView { playing: true, ..np }),
        opt_time_parts(position_source(result_of(msg))) == Some(time_parts(
            match result.field("time"@) {
                Some(t) => t,
                None => result.field("position"@)->0,
            },
        )),
{
}

/// The window title shows, when an item has a title, the playing or paused
/// icon, the title, the artist when there is one, and the program's name;
/// without a title it is the program's name alone.
pub proof fn lemma_window_title_parts(np: NowPlayingView)
    ensures
        np.title.len() == 0 ==> window_title_text(np) == "Koco - Kodi Control"@,
        np.title.len() > 0 && np.artist.len() > 0 ==> window_title_text(np) == seq![
            if np.playing { '\u{25b6}' } else { '\u{23f8}' },
            ' ',
        ] + np.title + seq![' ', '-', ' '] + np.artist + seq![' ', '-', ' ', 'K', 'o', 'c', 'o'],
        np.title.len() > 0 && np.artist.len() == 0 ==> window_title_text(np) == seq![
            if np.playing { '\u{25b6}' } else { '\u{23f8}' },
            ' ',
        ] + np.title + seq![' ', '-', ' ', 'K', 'o', 'c', 'o'],
{
    reveal_strlit("\u{25b6}");
    reveal_strlit("\u{23f8}");
    reveal_strlit(" ");
    reveal_strlit(" - ");
    reveal_strlit(" - Koco");
    if np.title.len() > 0 {
        let icon = if np.playing { "\u{25b6}"@ } else { "\u{23f8}"@ };
        let c = if np.playing { '\u{25b6}' } else { '\u{23f8}' };
        assert(icon + " "@ =~= seq![c, ' ']);
        if np.artist.len() > 0 {
            assert(window_title_text(np) =~= seq![c, ' '] + np.title + seq![' ', '-', ' '] + np.artist
                + seq![' ', '-', ' ', 'K', 'o', 'c', 'o']);
        } else {
            assert(window_title_text(np) =~= seq![c, ' '] + np.title + seq![' ', '-', ' ', 'K', 'o', 'c', 'o']);
        }
    }
}

/// Playing or paused, the window title differs only in its first character
/// (the icon).
pub proof fn lemma_window_title_icon_only(np: NowPlayingView)
    requires
        np.title.len() > 0,
    ensures
        window_title_text(np.with_playing(true)).len() == window_title_text(np.with_playing(false)).len(),
        window_title_text(np.with_playing(true)).skip(1) == window_title_text(np.with_playing(false)).skip(1),
        window_title_text(np.with_playing(true))[0] == '\u{25b6}',
        window_title_text(np.with_playing(false))[0] == '\u{23f8}',
{
    lemma_window_title_parts(np.with_playing(true));
    lemma_window_title_parts(np.with_playing(false));
    assert(window_title_text(np.with_playing(true)).skip(1) =~= window_title_text(np.with_playing(false)).skip(1));
}

impl Session {
    /// A connection that has not heard of any player yet.
    pub fn new() -> (r: Session)
        ensures
            r.player_id is None,
    {
        Session { player_id: None }
    }

    /// Takes in one message from Kodi: updates the now-playing information
    /// `np` and the remembered player, and says which requests to send and
    /// how the times change.
    pub fn handle_message(&mut self, np: &mut NowPlaying, msg: &Json) -> (r: Reply)
        ensures
            final(np)@ == next_now_playing(old(np)@, *msg),
            final(self).player_id == next_player(old(self).player_id, *msg),
            texts(r.requests@) == requests_for(*msg),
            r.reset_times == (method_of(*msg) == Some("Player.OnStop"@)),
            r.duration == opt_time_parts(opt_field(result_of(*msg), "totaltime"@)),
            r.position == opt_time_parts(position_source(result_of(*msg))),
    {
        let mut requests: Vec<String> = Vec::new();
        let mut reset_times = false;
        let method: Option<&String> = match msg.get("method") {
            Some(m) => m.as_str(),
            None => None,
        };
        let ghost np0 = np@;
        proof {
            lemma_stop_is_its_own_event();
        }
        match method {
            Some(m) => {
                if text_is(m, "Player.OnPlay") || text_is(m, "Player.OnResume") {
                    np.playing = true;
                    let player_field = get_in(
                        get_in(get_in(msg.get("params"), "data"), "player"),
                        "playerid",
                    );
                    let player = match player_field {
                        Some(v) => match v.as_i64() {
                            Some(p) => p,
                            None => 0,
                        },
                        None => 0,
                    };
                    self.player_id = Some(player);
                    requests.push(properties_message(4, player));
                    requests.push(item_message(2, player));
                } else if text_is(m, "Player.OnPause") {
                    np.playing = false;
                } else if text_is(m, "Player.OnStop") {
                    np.clear();
                    reset_times = true;
                }
            },
            None => {},
        }
        assert(np@ == after_event(np0, *msg));
        assert(texts(requests@) =~= (if starts_playback(*msg) {
            seq![properties_request(4, event_player(*msg) as int), item_request(2, event_player(*msg) as int)]
        } else {
            Seq::empty()
        }));
        let result = msg.get("result");
        let duration = match get_in(result, "totaltime") {
            Some(t) => Some(read_time_parts(t)),
            None => None,
        };
        match get_in(result, "item") {
            Some(item) => {
                let title = text_member_of(item, "title");
                let label = text_member_of(item, "label");
                np.title = if title.as_str().is_empty() {
                    label
                } else {
                    title
                };
                np.artist = match item.get("artist") {
                    Some(a) => match a.as_array() {
                        Some(names) => if names.len() > 0 {
                            text_of(Some(&names[0]))
                        } else {
                            String::new()
                        },
                        None => String::new(),
                    },
                    None => String::new(),
                };
                np.album = text_member_of(item, "album");
                np.playing = true;
            },
            None => {},
        }
        let position_object = match get_in(result, "time") {
            Some(t) => Some(t),
            None => get_in(result, "position"),
        };
        let position = match position_object {
            Some(p) => {
                np.playing = true;
                Some(read_time_parts(p))
            },
            None => None,
        };
        let ghost before_list = requests@;
        match result {
            Some(res) => {
                let reports = res.get("item").is_some() || res.get("totaltime").is_some()
                    || res.get("time").is_some();
                if !reports {
                    match res.as_array() {
                        Some(players) => {
                            if players.len() > 0 {
                                match players[0].get("playerid") {
                                    Some(v) => match v.as_i64() {
                                        Some(player) => {
                                            self.player_id = Some(player);
                                            requests.push(properties_message(5, player));
                                            requests.push(item_message(6, player));
                                        },
                                        None => {},
                                    },
                                    None => {},
                                }
                            }
                        },
                        None => {},
                    }
                }
            },
            None => {},
        }
        assert(texts(requests@) =~= requests_for(*msg));
        Reply { requests, reset_times, duration, position }
    }

    /// Takes in one frame: a text frame is handled as a message (and
    /// ignored when it is not JSON), a close frame or a read error ends the
    /// connection, any other frame is ignored.
    pub fn handle_frame(&mut self, np: &mut NowPlaying, frame: &Frame) -> (r: Step)
        ensures
            match *frame {
                Frame::Text(Some(msg)) => r matches Step::Continue(reply) && final(np)@ == next_now_playing(old(np)@, msg)
                    && final(self).player_id == next_player(old(self).player_id, msg)
                    && texts(reply.requests@) == requests_for(msg)
                    && reply.reset_times == (method_of(msg) == Some("Player.OnStop"@))
                    && reply.duration == opt_time_parts(opt_field(result_of(msg), "totaltime"@))
                    && reply.position == opt_time_parts(position_source(result_of(msg))),
                Frame::Close | Frame::Failed => r is Stop && final(np)@ == old(np)@
                    && final(self).player_id == old(self).player_id,
                _ => r matches Step::Continue(reply) && reply.requests@.len() == 0 && !reply.reset_times
                    && reply.duration is None && reply.position is None && final(np)@ == old(np)@
                    && final(self).player_id == old(self).player_id,
            },
    {
        match frame {
            Frame::Text(Some(msg)) => Step::Continue(self.handle_message(np, msg)),
            Frame::Close | Frame::Failed => Step::Stop,
            _ => Step::Continue(Reply { requests: Vec::new(), reset_times: false, duration: None, position: None }),
        }
    }
}

/// The frame for a text frame holding `text`: its JSON, if it is JSON.
pub fn text_frame(text: &str) -> (r: Frame)
    ensures
        r == Frame::Text(parsed_json(text@)),
{
    Frame::Text(parse_json(text))
}

impl Instance {
    /// Where to open the WebSocket for now-playing information, and the
    /// first request to send there; nothing when events are off for this
    /// instance.
    pub fn events_connection(&self) -> (r: Option<(String, String)>)
        ensures
            match r {
                Some((url, first)) => self.events && url@ == ws_url(self.hostname@) && first@ == active_players_request(),
                None => !self.events,
            },
    {
        if !self.events {
            return None;
        }
        Some((websocket_url(self.hostname.as_str()), active_players_message()))
    }
}

} // verus!
