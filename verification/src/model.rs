//! The application controller: a message-driven state machine that owns
//! the prefix index, the current render board and the suggestion list,
//! and answers every message with the next state plus the effects to run.
//! Effects (persisting, fetching, logging, media playback) are explicit
//! commands for the runtime; the state machine itself is side-effect
//! free, and each message is handled to completion before the next.

use vstd::prelude::*;

use crate::locations::entries_inserted;
use crate::locations::entry_view;
use crate::locations::lower_of;
use crate::locations::no_entries;
use crate::locations::parsed_city_map;
use crate::locations::result_has;
use crate::locations::stored_pair;
use crate::locations::CityEntry;
use crate::locations::Storage;
use crate::models::LocationWeather;
use crate::text::all_digits;
use crate::text::dec_rep;
use crate::text::dec_val;
use crate::text::lemma_dec_rep_all_digits;
use crate::text::lemma_dec_val_of_rep;
use crate::text::parse_decimal;
use crate::text::push_char;
use crate::text::push_decimal;
use crate::views::is_board_for;
use crate::views::WeatherBoard;

verus! {

/// The persisted form of a chosen location: display name, the separator
/// bar, and the decimal id.
pub open spec fn spec_format_location(name: Seq<char>, id: usize) -> Seq<char> {
    name + seq!['|'] + dec_rep(id as nat)
}

/// Renders the persisted form of a chosen location.
pub fn format_location(name: &str, id: usize) -> (r: String)
    ensures
        r@ == spec_format_location(name@, id),
{
    let mut out = String::from_str(name);
    push_char(&mut out, '|');
    push_decimal(&mut out, id as u64);
    proof {
        assert(out@ =~= spec_format_location(name@, id));
    }
    out
}

/// Index of the first separator bar, or the sequence's length when it
/// has none.
pub open spec fn pipe_pos(s: Seq<char>) -> int
    decreases s.len(),
{
    if s.len() == 0 {
        0
    } else if s[0] == '|' {
        0
    } else {
        1 + pipe_pos(s.drop_first())
    }
}

/// The separator stands exactly at the first bar (or past the end when
/// there is none).
pub proof fn lemma_pipe_pos_is(s: Seq<char>, j: int)
    requires
        0 <= j <= s.len(),
        forall|m: int| 0 <= m < j ==> (#[trigger] s[m]) != '|',
        j == s.len() || s[j] == '|',
    ensures
        pipe_pos(s) == j,
    decreases s.len(),
{
    if j > 0 {
        lemma_pipe_pos_is(s.drop_first(), j - 1);
    }
}

/// What a persisted value parses to: the text before the first bar and
/// the decimal value after it, or nothing when there is no bar or the
/// tail is not a decimal number that fits.
pub open spec fn spec_parse_location(s: Seq<char>) -> Option<(Seq<char>, usize)> {
    let p = pipe_pos(s);
    if p == s.len() {
        None
    } else {
        let digits = s.skip(p + 1);
        if digits.len() > 0 && all_digits(digits) && dec_val(digits) <= usize::MAX {
            Some((s.take(p), dec_val(digits) as usize))
        } else {
            None
        }
    }
}

/// Parses a persisted "name|id" value.
pub fn parse_location(s: &str) -> (r: Option<(String, usize)>)
    ensures
        r is Some <==> spec_parse_location(s@) is Some,
        r matches Some(p) ==> spec_parse_location(s@) == Some((p.0@, p.1)),
{
    let n = s.unicode_len();
    let mut i: usize = 0;
    while i < n && s.get_char(i) != '|'
        invariant
            0 <= i <= n,
            n == s@.len(),
            forall|m: int| 0 <= m < i ==> (#[trigger] s@[m]) != '|',
        decreases n - i,
    {
        i = i + 1;
    }
    proof {
        lemma_pipe_pos_is(s@, i as int);
    }
    if i == n {
        return None;
    }
    let name = s.substring_char(0, i).to_owned();
    let digits = s.substring_char(i + 1, n);
    proof {
        assert(digits@ =~= s@.skip(i + 1));
        assert(name@ =~= s@.take(i as int));
    }
    match parse_decimal(digits) {
        Some(id) => Some((name, id)),
        None => None,
    }
}

/// Persisting a location and restoring it reproduces the same pair, for
/// any display name free of the separator bar.
pub proof fn lemma_location_round_trip(name: Seq<char>, id: usize)
    requires
        forall|i: int| 0 <= i < name.len() ==> (#[trigger] name[i]) != '|',
    ensures
        spec_parse_location(spec_format_location(name, id)) == Some((name, id)),
{
    let digits = dec_rep(id as nat);
    let s = spec_format_location(name, id);
    lemma_dec_rep_all_digits(id as nat);
    assert(s[name.len() as int] == '|');
    assert(forall|m: int| 0 <= m < name.len() ==> (#[trigger] s[m]) == name[m]);
    lemma_pipe_pos_is(s, name.len() as int);
    assert(s.take(name.len() as int) =~= name);
    assert(s.skip(name.len() as int + 1) =~= digits);
    lemma_dec_val_of_rep(id as nat);
}

/// The hard-coded fallback location.
pub open spec fn spec_default_location() -> (Seq<char>, usize) {
    ("Toronto"@, 6167865)
}

pub open spec fn spec_restored(stored: Option<Seq<char>>) -> (Seq<char>, usize) {
    match stored {
        Some(s) => match spec_parse_location(s) {
            Some(p) => p,
            None => spec_default_location(),
        },
        None => spec_default_location(),
    }
}

/// The persisted value read back, or the default location where the
/// value is absent or malformed.
pub fn restore_location(stored: Option<String>) -> (r: (String, usize))
    ensures
        (r.0@, r.1) == spec_restored(
            match stored {
                Some(s) => Some(s@),
                None => None,
            },
        ),
{
    match stored {
        Some(s) => match parse_location(s.as_str()) {
            Some(p) => p,
            None => (String::from_str("Toronto"), 6167865),
        },
        None => (String::from_str("Toronto"), 6167865),
    }
}

/// A discrete event the controller reacts to.
#[derive(Debug, PartialEq)]
pub enum Msg {
    /// Startup: the persisted location value, if the runtime found one.
    LoadLocation(Option<String>),
    /// The search bar was focused.
    LoadSearchBar,
    /// The user chose a location: display name and id.
    LoadWeather(String, usize),
    /// A weather fetch completed: the generation of the request it
    /// answers, the display name, the payload, and whether the viewport
    /// is portrait.
    Fetched(u64, String, LocationWeather, bool),
    /// The search text changed.
    Search(String),
    /// A fetch or decode failed, with its diagnostic text.
    Failed(String),
    /// The catalog asset's bytes arrived.
    LocationDataLoaded(Vec<u8>),
    /// Start background media playback.
    PlayVideo,
    /// Toggle the shade presentation flag.
    Shade,
    /// An event the controller does not react to.
    Ignored,
}

/// An effect the runtime performs after a transition.
#[derive(Debug, PartialEq)]
pub enum Command {
    /// Persist this "name|id" value under the location key.
    Persist(String),
    /// Issue the weather fetch of this generation, for this display
    /// name and location id.
    Fetch(u64, String, usize),
    /// Request the catalog asset.
    LoadCityData,
    /// Report a non-fatal failure to the diagnostic sink.
    LogError(String),
    /// Abort: the catalog is foundational and did not load.
    Fatal(String),
    /// Start background media playback.
    PlayMedia,
    /// Toggle the shaded class on the affected elements.
    ToggleShade,
    /// Feed this message back into the queue.
    Emit(Msg),
}

/// What one transport outcome becomes: the body of a successful
/// response completes the fetch of its generation; a response that is
/// not a success is a failure even when its body was decodable; a body
/// that did not decode is a failure carrying the decoder's text.
pub fn classify_fetch_outcome(
    generation: u64,
    title: String,
    status_ok: bool,
    body: Result<LocationWeather, String>,
    portrait: bool,
) -> (m: Msg)
    ensures
        !status_ok ==> (m matches Msg::Failed(s) && s@ == "Response failed"@),
        status_ok ==> match body {
            Ok(w) => m == Msg::Fetched(generation, title, w, portrait),
            Err(e) => m matches Msg::Failed(s) && s == e,
        },
{
    if status_ok {
        match body {
            Ok(w) => Msg::Fetched(generation, title, w, portrait),
            Err(e) => Msg::Failed(e),
        }
    } else {
        Msg::Failed(String::from_str("Response failed"))
    }
}

/// The storage key of the persisted location.
pub fn location_key() -> (r: &'static str)
    ensures
        r@ == "location"@,
{
    "location"
}

/// The generation that supersedes `g`.
pub open spec fn next_generation(g: u64) -> u64 {
    if g == u64::MAX {
        0
    } else {
        (g + 1) as u64
    }
}

/// The controller's state: the prefix index, the current board, the
/// suggestion list, and the generation of the newest issued fetch (a
/// completion of any other generation is stale and ignored).
pub struct Model {
    pub location_api: Storage,
    pub board: Option<WeatherBoard>,
    pub suggestions: Vec<CityEntry>,
    pub fetch_generation: u64,
}

impl Model {
    /// The initial state: no catalog, no board, no suggestions.
    pub fn new() -> (m: Model)
        ensures
            m.location_api.contents() == no_entries(),
            !m.location_api.spec_populated(),
            m.board is None,
            m.suggestions@.len() == 0,
            m.fetch_generation == 0,
    {
        Model {
            location_api: Storage::new(),
            board: None,
            suggestions: Vec::new(),
            fetch_generation: 0,
        }
    }

    /// Startup: re-emits the load message for the persisted location (or
    /// the default), changing nothing else.
    pub fn load_location(&mut self, stored: Option<String>) -> (cmds: Vec<Command>)
        ensures
            *final(self) == *old(self),
            cmds@.len() == 1,
            cmds@[0] matches Command::Emit(m) && m matches Msg::LoadWeather(n, i) && ({
                let restored = spec_restored(
                    match stored {
                        Some(s) => Some(s@),
                        None => None,
                    },
                );
                n@ == restored.0 && i == restored.1
            }),
    {
        let (title, id) = restore_location(stored);
        let mut cmds: Vec<Command> = Vec::new();
        cmds.push(Command::Emit(Msg::LoadWeather(title, id)));
        cmds
    }

    /// Selecting a location: clears the suggestions, persists the choice
    /// and issues a fresh fetch whose generation supersedes any earlier
    /// one.
    pub fn load_weather(&mut self, city_name: String, id: usize) -> (r: (bool, Vec<Command>))
        ensures
            r.0,
            final(self).location_api == old(self).location_api,
            final(self).board == old(self).board,
            final(self).suggestions@.len() == 0,
            final(self).fetch_generation == next_generation(old(self).fetch_generation),
            r.1@.len() == 2,
            r.1@[0] matches Command::Persist(s) && s@ == spec_format_location(city_name@, id),
            r.1@[1] == Command::Fetch(next_generation(old(self).fetch_generation), city_name, id),
    {
        self.suggestions.clear();
        let generation = if self.fetch_generation == u64::MAX {
            0
        } else {
            self.fetch_generation + 1
        };
        self.fetch_generation = generation;
        let stored = format_location(city_name.as_str(), id);
        let mut cmds: Vec<Command> = Vec::new();
        cmds.push(Command::Persist(stored));
        cmds.push(Command::Fetch(generation, city_name, id));
        (true, cmds)
    }

    /// A fetch completion. A stale completion (any generation but the
    /// newest) changes nothing, so a slow superseded request can never
    /// overwrite a newer board; the current one replaces the board
    /// wholesale and schedules media playback.
    pub fn display_weather(
        &mut self,
        generation: u64,
        title: String,
        weather: LocationWeather,
        portrait: bool,
    ) -> (r: (bool, Vec<Command>))
        requires
            i64::MIN <= weather.local_sunrise() <= i64::MAX,
            i64::MIN <= weather.local_sunset() <= i64::MAX,
        ensures
            generation != old(self).fetch_generation ==> {
                &&& *final(self) == *old(self)
                &&& !r.0
                &&& r.1@.len() == 0
            },
            generation == old(self).fetch_generation ==> {
                &&& r.0
                &&& final(self).board matches Some(b) && is_board_for(b, title@, weather, portrait)
                &&& final(self).location_api == old(self).location_api
                &&& final(self).suggestions == old(self).suggestions
                &&& final(self).fetch_generation == old(self).fetch_generation
                &&& r.1@.len() == 1 && r.1@[0] == Command::Emit(Msg::PlayVideo)
            },
    {
        if generation != self.fetch_generation {
            return (false, Vec::new());
        }
        let board = WeatherBoard::new(title, weather, portrait);
        self.board = Some(board);
        let mut cmds: Vec<Command> = Vec::new();
        cmds.push(Command::Emit(Msg::PlayVideo));
        (true, cmds)
    }

    /// A keystroke: a query under three characters clears the
    /// suggestions and is never handed to the index; a longer one
    /// replaces the suggestions with the index's answer.
    pub fn search_city(&mut self, city: &str) -> (render: bool)
        ensures
            render,
            final(self).location_api == old(self).location_api,
            final(self).board == old(self).board,
            final(self).fetch_generation == old(self).fetch_generation,
            city@.len() < 3 ==> final(self).suggestions@.len() == 0,
            city@.len() >= 3 ==> {
                &&& forall|i: int|
                    0 <= i < final(self).suggestions@.len() ==> stored_pair(
                        old(self).location_api.contents(),
                        entry_view(#[trigger] final(self).suggestions@[i]),
                    ) && lower_of(city@).is_prefix_of(
                        lower_of(entry_view(final(self).suggestions@[i]).0),
                    )
                &&& forall|k: Seq<char>, j: int|
                    #![trigger old(self).location_api.contents()[k][j]]
                    old(self).location_api.contents().dom().contains(k) && lower_of(
                        city@,
                    ).is_prefix_of(k) && 0 <= j < old(self).location_api.contents()[k].len()
                        ==> result_has(
                        final(self).suggestions@,
                        old(self).location_api.contents()[k][j],
                    )
            },
    {
        if city.unicode_len() < 3 {
            self.suggestions.clear();
        } else {
            self.suggestions = self.location_api.find(city);
        }
        true
    }

    /// Focusing the search bar: triggers the one-time catalog bootstrap,
    /// and nothing once the index is populated.
    pub fn load_search_bar(&self) -> (cmds: Vec<Command>)
        ensures
            self.location_api.spec_populated() ==> cmds@.len() == 0,
            !self.location_api.spec_populated() ==> cmds@.len() == 1 && cmds@[0]
                == Command::LoadCityData,
    {
        let mut cmds: Vec<Command> = Vec::new();
        if !self.location_api.is_populated() {
            cmds.push(Command::LoadCityData);
        }
        cmds
    }

    /// The catalog bytes arrived: fills the index. Bytes that do not
    /// parse are fatal — the catalog is foundational and the search
    /// feature has no degraded mode.
    pub fn populate_location_storage(&mut self, bytes: Vec<u8>) -> (cmds: Vec<Command>)
        ensures
            final(self).board == old(self).board,
            final(self).suggestions == old(self).suggestions,
            final(self).fetch_generation == old(self).fetch_generation,
            old(self).location_api.spec_populated() ==> final(self).location_api == old(
                self,
            ).location_api && cmds@.len() == 0,
            !old(self).location_api.spec_populated() ==> match parsed_city_map(bytes@) {
                Some(entries) => {
                    &&& final(self).location_api.spec_populated()
                    &&& final(self).location_api.contents() == entries_inserted(
                        no_entries(),
                        entries,
                    )
                    &&& cmds@.len() == 0
                },
                None => {
                    &&& final(self).location_api == old(self).location_api
                    &&& cmds@.len() == 1
                    &&& cmds@[0] matches Command::Fatal(m) && m@ == "Failed to deserialize"@
                },
            },
    {
        let ok = self.location_api.populates(bytes);
        let mut cmds: Vec<Command> = Vec::new();
        if !ok {
            cmds.push(Command::Fatal(String::from_str("Failed to deserialize")));
        }
        cmds
    }

    /// One step of the message loop: the next state, whether to
    /// re-render, and the effects to run. Messages are handled one at a
    /// time, each to completion.
    pub fn update(&mut self, msg: Msg) -> (r: (bool, Vec<Command>))
        requires
            msg matches Msg::Fetched(g, t, w, p) ==> i64::MIN <= w.local_sunrise() <= i64::MAX
                && i64::MIN <= w.local_sunset() <= i64::MAX,
        ensures
            match msg {
                Msg::LoadLocation(stored) => {
                    &&& *final(self) == *old(self)
                    &&& !r.0
                    &&& r.1@.len() == 1
                    &&& r.1@[0] matches Command::Emit(m) && m matches Msg::LoadWeather(n, i) && ({
                        let restored = spec_restored(
                            match stored {
                                Some(s) => Some(s@),
                                None => None,
                            },
                        );
                        n@ == restored.0 && i == restored.1
                    })
                },
                Msg::LoadWeather(title, id) => {
                    &&& r.0
                    &&& final(self).location_api == old(self).location_api
                    &&& final(self).board == old(self).board
                    &&& final(self).suggestions@.len() == 0
                    &&& final(self).fetch_generation == next_generation(
                        old(self).fetch_generation,
                    )
                    &&& r.1@.len() == 2
                    &&& r.1@[0] matches Command::Persist(s) && s@ == spec_format_location(
                        title@,
                        id,
                    )
                    &&& r.1@[1] == Command::Fetch(
                        next_generation(old(self).fetch_generation),
                        title,
                        id,
                    )
                },
                Msg::Fetched(generation, title, weather, portrait) => {
                    &&& generation != old(self).fetch_generation ==> *final(self) == *old(self)
                        && !r.0 && r.1@.len() == 0
                    &&& generation == old(self).fetch_generation ==> {
                        &&& r.0
                        &&& final(self).board matches Some(b) && is_board_for(
                            b,
                            title@,
                            weather,
                            portrait,
                        )
                        &&& final(self).location_api == old(self).location_api
                        &&& final(self).suggestions == old(self).suggestions
                        &&& final(self).fetch_generation == old(self).fetch_generation
                        &&& r.1@.len() == 1 && r.1@[0] == Command::Emit(Msg::PlayVideo)
                    }
                },
                Msg::Search(city) => {
                    &&& r.0
                    &&& r.1@.len() == 0
                    &&& final(self).location_api == old(self).location_api
                    &&& final(self).board == old(self).board
                    &&& final(self).fetch_generation == old(self).fetch_generation
                    &&& city@.len() < 3 ==> final(self).suggestions@.len() == 0
                    &&& city@.len() >= 3 ==> {
                        &&& forall|i: int|
                            0 <= i < final(self).suggestions@.len() ==> stored_pair(
                                old(self).location_api.contents(),
                                entry_view(#[trigger] final(self).suggestions@[i]),
                            ) && lower_of(city@).is_prefix_of(
                                lower_of(entry_view(final(self).suggestions@[i]).0),
                            )
                        &&& forall|k: Seq<char>, j: int|
                            #![trigger old(self).location_api.contents()[k][j]]
                            old(self).location_api.contents().dom().contains(k) && lower_of(
                                city@,
                            ).is_prefix_of(k) && 0 <= j < old(
                                self,
                            ).location_api.contents()[k].len() ==> result_has(
                                final(self).suggestions@,
                                old(self).location_api.contents()[k][j],
                            )
                    }
                },
                Msg::LoadSearchBar => {
                    &&& *final(self) == *old(self)
                    &&& !r.0
                    &&& old(self).location_api.spec_populated() ==> r.1@.len() == 0
                    &&& !old(self).location_api.spec_populated() ==> r.1@.len() == 1 && r.1@[0]
                        == Command::LoadCityData
                },
                Msg::LocationDataLoaded(bytes) => {
                    &&& !r.0
                    &&& final(self).board == old(self).board
                    &&& final(self).suggestions == old(self).suggestions
                    &&& final(self).fetch_generation == old(self).fetch_generation
                    &&& old(self).location_api.spec_populated() ==> final(self).location_api
                        == old(self).location_api && r.1@.len() == 0
                    &&& !old(self).location_api.spec_populated() ==> match parsed_city_map(
                        bytes@,
                    ) {
                        Some(entries) => {
                            &&& final(self).location_api.spec_populated()
                            &&& final(self).location_api.contents() == entries_inserted(
                                no_entries(),
                                entries,
                            )
                            &&& r.1@.len() == 0
                        },
                        None => {
                            &&& final(self).location_api == old(self).location_api
                            &&& r.1@.len() == 1
                            &&& r.1@[0] matches Command::Fatal(m) && m@
                                == "Failed to deserialize"@
                        },
                    }
                },
                Msg::Failed(info) => {
                    &&& *final(self) == *old(self)
                    &&& !r.0
                    &&& r.1@.len() == 1
                    &&& r.1@[0] matches Command::LogError(s) && s == info
                },
                Msg::PlayVideo => {
                    &&& *final(self) == *old(self)
                    &&& !r.0
                    &&& r.1@.len() == 1 && r.1@[0] == Command::PlayMedia
                },
                Msg::Shade => {
                    &&& *final(self) == *old(self)
                    &&& r.0
                    &&& r.1@.len() == 1 && r.1@[0] == Command::ToggleShade
                },
                Msg::Ignored => {
                    &&& *final(self) == *old(self)
                    &&& !r.0
                    &&& r.1@.len() == 0
                },
            },
    {
        match msg {
            Msg::LoadLocation(stored) => {
                let cmds = self.load_location(stored);
                (false, cmds)
            },
            Msg::LoadWeather(title, id) => self.load_weather(title, id),
            Msg::Fetched(generation, location, response, portrait) => self.display_weather(
                generation,
                location,
                response,
                portrait,
            ),
            Msg::Search(city) => {
                let render = self.search_city(city.as_str());
                (render, Vec::new())
            },
            Msg::LoadSearchBar => {
                let cmds = self.load_search_bar();
                (false, cmds)
            },
            Msg::LocationDataLoaded(bytes) => {
                let cmds = self.populate_location_storage(bytes);
                (false, cmds)
            },
            Msg::Failed(info) => {
                let mut cmds: Vec<Command> = Vec::new();
                cmds.push(Command::LogError(info));
                (false, cmds)
            },
            Msg::PlayVideo => {
                let mut cmds: Vec<Command> = Vec::new();
                cmds.push(Command::PlayMedia);
                (false, cmds)
            },
            Msg::Shade => {
                let mut cmds: Vec<Command> = Vec::new();
                cmds.push(Command::ToggleShade);
                (true, cmds)
            },
            Msg::Ignored => (false, Vec::new()),
        }
    }
}

} // verus!
