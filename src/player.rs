use crate::catalog::{listed_paths, paths_view, ScanError, TrackCatalog};
use crate::track::{file_name_of, get_file_name, Track};
use vstd::prelude::*;
use vstd::string::*;

verus! {

/// Whether a track is loaded, and whether it sounds.
#[derive(Debug, Clone, Copy, PartialEq, Eq, Structural)]
pub enum PlayerStatus {
    Idle,
    Playing,
    Paused,
}

/// Why a track could not be started.
#[derive(Debug, Clone, Copy, PartialEq, Eq, Structural)]
pub enum PlaybackError {
    Unreadable,
    DecodeFailed,
}

/// An input to the player. The events that change the directory carry the
/// listing of the new directory, made with `scan_pattern`.
#[derive(Debug)]
pub enum Event {
    DirectoryTextChanged(String, Result<Vec<String>, ScanError>),
    DirectorySelected(String, Result<Vec<String>, ScanError>),
    TrackSelected(String),
    PauseRequested,
    ResumeRequested,
    FocusNext,
    FocusPrevious,
    ConfirmFocused,
    /// The last track asked for could not be started.
    PlaybackFailed(PlaybackError),
}

/// A request for the audio output.
#[derive(Debug)]
pub enum Effect {
    Start(Track),
    Pause,
    Resume,
}

/// An effect with its track given by path.
pub enum EffectModel {
    Start(Seq<char>),
    Pause,
    Resume,
}

impl View for Effect {
    type V = EffectModel;

    open spec fn view(&self) -> EffectModel {
        match self {
            Effect::Start(t) => EffectModel::Start(t.path@),
            Effect::Pause => EffectModel::Pause,
            Effect::Resume => EffectModel::Resume,
        }
    }
}

/// The effects of a list, in order.
pub open spec fn effects_view(v: Seq<Effect>) -> Seq<EffectModel> {
    v.map_values(|f: Effect| f@)
}

/// The player's state with each track given by its path.
pub struct PlayerModel {
    pub directory: Seq<char>,
    pub input: Seq<char>,
    pub catalog: Option<Seq<Seq<char>>>,
    pub current: Option<Seq<char>>,
    pub status: PlayerStatus,
    pub notice: Option<PlaybackError>,
    /// The track and status from before the last start, while that start
    /// may still fail.
    pub pending: Option<(Option<Seq<char>>, PlayerStatus)>,
}

impl PlayerModel {
    /// The directory is never empty, and a track is loaded whenever the
    /// status is not `Idle`; so it is in the state kept for a failed start.
    pub open spec fn inv(self) -> bool {
        &&& self.directory.len() > 0
        &&& self.status != PlayerStatus::Idle ==> self.current is Some
        &&& self.pending matches Some((t, s)) ==> (s != PlayerStatus::Idle ==> t is Some)
    }
}

/// The directory that typed text names: the text itself, or the current
/// directory while the text is empty.
pub open spec fn directory_of_text(current: Seq<char>, text: Seq<char>) -> Seq<char> {
    if text.len() == 0 {
        current
    } else {
        text
    }
}

/// The transition of the player on one event: the new state, and the
/// effects requested from the audio output.
pub open spec fn step(s: PlayerModel, e: Event) -> (PlayerModel, Seq<EffectModel>) {
    match e {
        Event::DirectoryTextChanged(text, listing) => (
            PlayerModel {
                directory: directory_of_text(s.directory, text@),
                input: text@,
                catalog: Some(listed_paths(listing)),
                ..s
            },
            Seq::empty(),
        ),
        Event::DirectorySelected(path, listing) => match listing {
            Ok(v) if path@.len() > 0 => (
                PlayerModel { directory: path@, input: path@, catalog: Some(paths_view(v@)), ..s },
                Seq::empty(),
            ),
            _ => (s, Seq::empty()),
        },
        Event::TrackSelected(p) => if s.catalog matches Some(c) && c.contains(p@) {
            (
                PlayerModel {
                    current: Some(p@),
                    status: PlayerStatus::Playing,
                    notice: None,
                    pending: Some((s.current, s.status)),
                    ..s
                },
                seq![EffectModel::Start(p@)],
            )
        } else {
            (s, Seq::empty())
        },
        Event::PauseRequested => if s.status == PlayerStatus::Playing {
            (
                PlayerModel { status: PlayerStatus::Paused, pending: None, ..s },
                seq![EffectModel::Pause],
            )
        } else {
            (s, Seq::empty())
        },
        Event::ResumeRequested => if s.status == PlayerStatus::Paused {
            (
                PlayerModel { status: PlayerStatus::Playing, pending: None, ..s },
                seq![EffectModel::Resume],
            )
        } else {
            (s, Seq::empty())
        },
        Event::PlaybackFailed(err) => match s.pending {
            Some((t, st)) => (
                PlayerModel { current: t, status: st, notice: Some(err), pending: None, ..s },
                Seq::empty(),
            ),
            None => (s, Seq::empty()),
        },
        _ => (s, Seq::empty()),
    }
}

/// The state after a sequence of events.
pub open spec fn run(s: PlayerModel, events: Seq<Event>) -> PlayerModel
    decreases events.len(),
{
    if events.len() == 0 {
        s
    } else {
        run(step(s, events[0]).0, events.drop_first())
    }
}

/// Every transition keeps a track loaded whenever the status is not `Idle`.
pub proof fn lemma_step_keeps_inv(s: PlayerModel, e: Event)
    requires
        s.inv(),
    ensures
        step(s, e).0.inv(),
{
}

/// After any sequence of events, from a state where a track is loaded
/// whenever the status is not `Idle`, that still holds.
pub proof fn lemma_run_keeps_inv(s: PlayerModel, events: Seq<Event>)
    requires
        s.inv(),
    ensures
        run(s, events).inv(),
    decreases events.len(),
{
    if events.len() > 0 {
        lemma_step_keeps_inv(s, events[0]);
        lemma_run_keeps_inv(step(s, events[0]).0, events.drop_first());
    }
}

/// Selecting a track of the catalog plays it, whatever the status was, and
/// requests exactly one start, of that track.
pub proof fn lemma_track_selected_starts(s: PlayerModel, p: String)
    requires
        s.catalog matches Some(c) && c.contains(p@),
    ensures
        step(s, Event::TrackSelected(p)).0.status == PlayerStatus::Playing,
        step(s, Event::TrackSelected(p)).0.current == Some(p@),
        step(s, Event::TrackSelected(p)).1.len() == 1,
        step(s, Event::TrackSelected(p)).1[0] == EffectModel::Start(p@),
{
}

/// Selecting a path that is not in the catalog changes nothing and requests
/// nothing.
pub proof fn lemma_unknown_track_ignored(s: PlayerModel, p: String)
    requires
        !(s.catalog matches Some(c) && c.contains(p@)),
    ensures
        step(s, Event::TrackSelected(p)) == (s, Seq::<EffectModel>::empty()),
{
}

/// Pausing while paused changes nothing and requests nothing.
pub proof fn lemma_pause_when_paused(s: PlayerModel)
    requires
        s.status == PlayerStatus::Paused,
    ensures
        step(s, Event::PauseRequested) == (s, Seq::<EffectModel>::empty()),
{
}

/// Pausing twice is pausing once.
pub proof fn lemma_pause_idempotent(s: PlayerModel)
    ensures
        step(step(s, Event::PauseRequested).0, Event::PauseRequested) == (
            step(s, Event::PauseRequested).0,
            Seq::<EffectModel>::empty(),
        ),
{
}

/// A change of directory rebuilds the catalog and leaves the playback alone.
pub proof fn lemma_directory_change_keeps_playback(
    s: PlayerModel,
    text: String,
    listing: Result<Vec<String>, ScanError>,
)
    ensures
        step(s, Event::DirectoryTextChanged(text, listing)).0.status == s.status,
        step(s, Event::DirectoryTextChanged(text, listing)).0.current == s.current,
        step(s, Event::DirectoryTextChanged(text, listing)).0.catalog == Some(
            listed_paths(listing),
        ),
        step(s, Event::DirectoryTextChanged(text, listing)).1.len() == 0,
{
}

/// The state of the player.
#[derive(Debug)]
pub struct PlayerState {
    pub current_directory: String,
    /// What the user is typing, checked against nothing.
    pub directory_input_text: String,
    /// Absent until a directory has been scanned.
    pub catalog: Option<TrackCatalog>,
    pub current_track: Option<Track>,
    pub status: PlayerStatus,
    /// The last failure to start a track, until the next track is selected.
    pub notice: Option<PlaybackError>,
    /// The track and status from before the last start, kept until that
    /// start is known to have failed or another transition happens.
    pub pending: Option<(Option<Track>, PlayerStatus)>,
}

/// The path of a track, if there is one.
pub open spec fn track_path(t: Option<Track>) -> Option<Seq<char>> {
    match t {
        Some(t) => Some(t.path@),
        None => None,
    }
}

/// A track, if there is one, is named by its path.
pub open spec fn track_wf(t: Option<Track>) -> bool {
    t matches Some(t) ==> t.wf()
}

impl View for PlayerState {
    type V = PlayerModel;

    open spec fn view(&self) -> PlayerModel {
        PlayerModel {
            directory: self.current_directory@,
            input: self.directory_input_text@,
            catalog: match self.catalog {
                Some(c) => Some(c@),
                None => None,
            },
            current: track_path(self.current_track),
            status: self.status,
            notice: self.notice,
            pending: match self.pending {
                Some((t, s)) => Some((track_path(t), s)),
                None => None,
            },
        }
    }
}

/// The title shown for a state.
pub open spec fn title_of(m: PlayerModel) -> Seq<char> {
    "Swirl is Playing: "@ + match m.current {
        Some(p) => file_name_of(p),
        None => "Nothing"@,
    }
}

/// What the view shows: the title, whether the button pauses (else it
/// plays), and one row of name and path for each track.
#[derive(Debug)]
pub struct Projection {
    pub title: String,
    pub show_pause: bool,
    pub rows: Vec<(String, String)>,
}

fn copy_track(t: &Option<Track>) -> (r: Option<Track>)
    ensures
        track_path(r) == track_path(*t),
        track_wf(*t) ==> track_wf(r),
{
    match t {
        Some(t) => Some(t.duplicate()),
        None => None,
    }
}

/// The directory the player starts in: the home directory when it is
/// known, else the root.
pub fn default_directory(home: Option<String>) -> (r: String)
    ensures
        r@ == (match home {
            Some(h) => if h@.len() > 0 {
                h@
            } else {
                "/"@
            },
            None => "/"@,
        }),
        r@.len() > 0,
{
    proof {
        reveal_strlit("/");
    }
    match home {
        Some(h) => if h.as_str().unicode_len() > 0 {
            h
        } else {
            String::from_str("/")
        },
        None => String::from_str("/"),
    }
}

/// The text the directory box starts with: the home directory followed by
/// a separator, or nothing when the home directory is unknown.
pub fn default_input_text(home: &Option<String>) -> (r: String)
    ensures
        r@ == (match home {
            Some(h) => h@ + "/"@,
            None => ""@,
        }),
{
    proof {
        reveal_strlit("");
    }
    match home {
        Some(h) => h.clone().concat("/"),
        None => String::new(),
    }
}

impl PlayerState {
    /// The model's invariant, and every track named by its path.
    pub open spec fn wf(&self) -> bool {
        &&& self@.inv()
        &&& track_wf(self.current_track)
        &&& self.pending matches Some((t, _)) ==> track_wf(t)
        &&& self.catalog matches Some(c) ==> c.wf()
    }

    /// A player in `directory`, with nothing loaded, whose directory box
    /// holds `input`, and whose catalog is built from the listing of that
    /// directory.
    pub fn new(directory: String, input: String, listing: Result<Vec<String>, ScanError>) -> (s:
        PlayerState)
        requires
            directory@.len() > 0,
        ensures
            s.wf(),
            s@ == (PlayerModel {
                directory: directory@,
                input: input@,
                catalog: Some(listed_paths(listing)),
                current: None,
                status: PlayerStatus::Idle,
                notice: None,
                pending: None,
            }),
    {
        let catalog = TrackCatalog::from_listing(&listing);
        PlayerState {
            directory_input_text: input,
            current_directory: directory,
            catalog: Some(catalog),
            current_track: None,
            status: PlayerStatus::Idle,
            notice: None,
            pending: None,
        }
    }

    /// The directory that `text` names if it is typed in the directory box
    /// now: the one whose listing `DirectoryTextChanged` is to carry.
    pub fn directory_for_text(&self, text: &String) -> (r: String)
        ensures
            r@ == directory_of_text(self@.directory, text@),
    {
        if text.as_str().unicode_len() == 0 {
            self.current_directory.clone()
        } else {
            text.clone()
        }
    }

    fn in_catalog(&self, path: &String) -> (r: bool)
        ensures
            r == (self@.catalog matches Some(c) && c.contains(path@)),
    {
        match &self.catalog {
            Some(c) => c.contains(path),
            None => false,
        }
    }

    /// Applies one event, and returns the effects that the audio output is
    /// to perform, in order.
    pub fn update(&mut self, event: Event) -> (effects: Vec<Effect>)
        requires
            old(self).wf(),
        ensures
            final(self).wf(),
            final(self)@ == step(old(self)@, event).0,
            effects_view(effects@) == step(old(self)@, event).1,
            effects@.len() == step(old(self)@, event).1.len(),
            forall|i: int|
                0 <= i < effects@.len() ==> (#[trigger] effects@[i])@ == step(old(self)@, event).1[i],
    {
        let ghost e = event;
        let mut effects: Vec<Effect> = Vec::new();
        match event {
            Event::DirectoryTextChanged(text, listing) => {
                self.catalog = Some(TrackCatalog::from_listing(&listing));
                self.current_directory = self.directory_for_text(&text);
                self.directory_input_text = text;
            },
            Event::DirectorySelected(path, listing) => {
                if path.as_str().unicode_len() > 0 {
                    if let Ok(paths) = &listing {
                        self.catalog = Some(TrackCatalog::from_paths(paths));
                        self.directory_input_text = path.clone();
                        self.current_directory = path;
                    }
                }
            },
            Event::TrackSelected(p) => {
                if self.in_catalog(&p) {
                    let prior = copy_track(&self.current_track);
                    let track = Track::new(p);
                    self.pending = Some((prior, self.status));
                    self.current_track = Some(track.duplicate());
                    self.status = PlayerStatus::Playing;
                    self.notice = None;
                    effects.push(Effect::Start(track));
                }
            },
            Event::PauseRequested => {
                if self.status == PlayerStatus::Playing {
                    self.status = PlayerStatus::Paused;
                    self.pending = None;
                    effects.push(Effect::Pause);
                }
            },
            Event::ResumeRequested => {
                if self.status == PlayerStatus::Paused {
                    self.status = PlayerStatus::Playing;
                    self.pending = None;
                    effects.push(Effect::Resume);
                }
            },
            Event::PlaybackFailed(err) => {
                if let Some((t, st)) = &self.pending {
                    self.current_track = copy_track(t);
                    self.status = *st;
                    self.notice = Some(err);
                    self.pending = None;
                }
            },
            Event::FocusNext => {},
            Event::FocusPrevious => {},
            Event::ConfirmFocused => {},
        }
        assert(effects_view(effects@) =~= step(old(self)@, e).1);
        assert forall|i: int| 0 <= i < effects@.len() implies (#[trigger] effects@[i])@ == step(
            old(self)@,
            e,
        ).1[i] by {
            assert(effects_view(effects@)[i] == effects@[i]@);
        }
        effects
    }

    /// The title of the window.
    pub fn title(&self) -> (r: String)
        ensures
            r@ == title_of(self@),
    {
        let head = String::from_str("Swirl is Playing: ");
        match &self.current_track {
            Some(t) => {
                let name = get_file_name(t.path.as_str());
                head.concat(name.as_str())
            },
            None => head.concat("Nothing"),
        }
    }

    /// What the view shows of this state.
    pub fn projection(&self) -> (p: Projection)
        ensures
            p.title@ == title_of(self@),
            p.show_pause == (self.status == PlayerStatus::Playing),
            p.rows@.len() == (match self@.catalog {
                Some(c) => c.len(),
                None => 0,
            }),
            forall|i: int|
                0 <= i < p.rows@.len() ==> (#[trigger] p.rows@[i]).1@ == self@.catalog->0[i]
                    && p.rows@[i].0@ == file_name_of(self@.catalog->0[i]),
    {
        let mut rows: Vec<(String, String)> = Vec::new();
        match &self.catalog {
            Some(c) => {
                let mut i: usize = 0;
                while i < c.tracks.len()
                    invariant
                        i <= c.tracks@.len(),
                        rows@.len() == i,
                        forall|j: int|
                            0 <= j < i ==> (#[trigger] rows@[j]).1@ == c@[j] && rows@[j].0@
                                == file_name_of(c@[j]),
                    decreases c.tracks.len() - i,
                {
                    let t = &c.tracks[i];
                    let name = get_file_name(t.path.as_str());
                    rows.push((name, t.path.clone()));
                    i = i + 1;
                }
            },
            None => {},
        }
        Projection { title: self.title(), show_pause: self.status == PlayerStatus::Playing, rows }
    }
}

} // verus!
