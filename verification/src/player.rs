//! Setting the player up: its properties, the options of the user, and the order
//! in which all of it happens.

use vstd::prelude::*;

use crate::release::Release;
use crate::text::{find, join, part, trim_bounds};

verus! {

/// What the player's update callback writes to the wakeup descriptor: this number,
/// as its eight bytes in the order of the machine. Whether it can be written does
/// not matter.
pub const UPDATE_SIGNAL: u64 = 1;

/// A parameter of the player's render context.
#[derive(Debug, PartialEq, Eq)]
pub enum ContextParam<E, D> {
    /// Draw with OpenGL.
    OpenGl,
    /// Look the functions of OpenGL up in EGL, each at `egl::mpv_get_proc_address`.
    ProcAddress { egl: E },
    /// The compositor's display.
    WaylandDisplay(D),
    /// The end of the parameters.
    Invalid,
}

/// The parameters with which the render context is created.
pub fn context_params<E, D>(egl: E, display: D) -> (params: Vec<ContextParam<E, D>>)
    ensures
        params@ == seq![
            ContextParam::OpenGl,
            ContextParam::ProcAddress { egl },
            ContextParam::WaylandDisplay(display),
            ContextParam::Invalid,
        ],
{
    vec![
        ContextParam::OpenGl,
        ContextParam::ProcAddress { egl },
        ContextParam::WaylandDisplay(display),
        ContextParam::Invalid,
    ]
}

/// A value that a player property is set to.
#[derive(Debug, PartialEq, Eq)]
pub enum PropertyValue<S> {
    Text(S),
    Flag(bool),
    /// A floating-point property that is set to a whole number.
    Number(i32),
}

/// One of the comma-separated options of the user, without the white space
/// around it.
#[derive(Debug, PartialEq, Eq)]
pub enum OptionEntry<S> {
    /// A pair of a key and a value, which stand before and behind the first `=`
    /// of `text`, without the white space around each.
    Setting { text: S, key: S, value: S },
    /// An option without `=`.
    Invalid { text: S },
}

/// A step on the way to a playing video.
#[derive(Debug, PartialEq, Eq)]
pub enum PlayerAction<S> {
    /// Create the player.
    Create,
    /// Set a property that the wallpaper depends on.
    SetProperty { name: S, to: PropertyValue<S> },
    /// Set a property that the user asked for; `text` is how the user wrote it.
    SetOption { text: S, key: S, value: S },
    /// Warn of an option that is not a pair of a key and a value.
    WarnInvalid { text: S },
    /// Create the player's render context, with the parameters of `context_params`.
    CreateRenderContext,
    /// Have the player write the signal to the wakeup descriptor at each update.
    WatchUpdates { signal: u64 },
    /// Load the video.
    LoadFile { path: S },
}

impl View for PropertyValue<String> {
    type V = PropertyValue<Seq<char>>;

    open spec fn view(&self) -> PropertyValue<Seq<char>> {
        match self {
            PropertyValue::Text(text) => PropertyValue::Text(text@),
            PropertyValue::Flag(flag) => PropertyValue::Flag(*flag),
            PropertyValue::Number(number) => PropertyValue::Number(*number),
        }
    }
}

impl View for OptionEntry<String> {
    type V = OptionEntry<Seq<char>>;

    open spec fn view(&self) -> OptionEntry<Seq<char>> {
        match self {
            OptionEntry::Setting { text, key, value } => OptionEntry::Setting {
                text: text@,
                key: key@,
                value: value@,
            },
            OptionEntry::Invalid { text } => OptionEntry::Invalid { text: text@ },
        }
    }
}

impl View for PlayerAction<String> {
    type V = PlayerAction<Seq<char>>;

    open spec fn view(&self) -> PlayerAction<Seq<char>> {
        match self {
            PlayerAction::Create => PlayerAction::Create,
            PlayerAction::SetProperty { name, to } => PlayerAction::SetProperty {
                name: name@,
                to: to@,
            },
            PlayerAction::SetOption { text, key, value } => PlayerAction::SetOption {
                text: text@,
                key: key@,
                value: value@,
            },
            PlayerAction::WarnInvalid { text } => PlayerAction::WarnInvalid { text: text@ },
            PlayerAction::CreateRenderContext => PlayerAction::CreateRenderContext,
            PlayerAction::WatchUpdates { signal } => PlayerAction::WatchUpdates { signal: *signal },
            PlayerAction::LoadFile { path } => PlayerAction::LoadFile { path: path@ },
        }
    }
}

/// The views of a sequence of entries.
pub open spec fn entry_views(entries: Seq<OptionEntry<String>>) -> Seq<OptionEntry<Seq<char>>> {
    entries.map_values(|entry: OptionEntry<String>| entry@)
}

/// The views of a sequence of actions.
pub open spec fn action_views(actions: Seq<PlayerAction<String>>) -> Seq<PlayerAction<Seq<char>>> {
    actions.map_values(|action: PlayerAction<String>| action@)
}

/// What a trimmed option means.
pub open spec fn entry_of(text: Seq<char>) -> OptionEntry<Seq<char>> {
    let equals = crate::text::position(text, '=');
    if equals < text.len() {
        OptionEntry::Setting {
            text,
            key: crate::text::trim(text.take(equals)),
            value: crate::text::trim(text.skip(equals + 1)),
        }
    } else {
        OptionEntry::Invalid { text }
    }
}

/// What the pieces between the commas mean: each is trimmed, and those of which
/// nothing is left are passed over.
pub open spec fn entries_of(pieces: Seq<Seq<char>>) -> Seq<OptionEntry<Seq<char>>>
    decreases pieces.len(),
{
    if pieces.len() == 0 {
        Seq::empty()
    } else {
        let text = crate::text::trim(pieces[0]);
        let rest = entries_of(pieces.skip(1));
        if text.len() == 0 {
            rest
        } else {
            seq![entry_of(text)] + rest
        }
    }
}

/// The options that the user's text means.
pub open spec fn options_of(text: Seq<char>) -> Seq<OptionEntry<Seq<char>>> {
    entries_of(crate::text::split(text, ','))
}

/// The text that an option was written as.
pub open spec fn entry_text(entry: OptionEntry<Seq<char>>) -> Seq<char> {
    match entry {
        OptionEntry::Setting { text, .. } => text,
        OptionEntry::Invalid { text } => text,
    }
}

/// What is done with an option.
pub open spec fn option_action(entry: OptionEntry<Seq<char>>) -> PlayerAction<Seq<char>> {
    match entry {
        OptionEntry::Setting { text, key, value } => PlayerAction::SetOption { text, key, value },
        OptionEntry::Invalid { text } => PlayerAction::WarnInvalid { text },
    }
}

/// The property `name` with a text for its value.
pub open spec fn text_property(name: Seq<char>, value: Seq<char>) -> PlayerAction<Seq<char>> {
    PlayerAction::SetProperty { name, to: PropertyValue::Text(value) }
}

/// What comes before the options of the user: the player with the properties that
/// make it a wallpaper.
pub open spec fn opening() -> Seq<PlayerAction<Seq<char>>> {
    seq![
        PlayerAction::Create,
        text_property("vo"@, "libmpv"@),
        text_property("hwdec"@, "auto"@),
        text_property("video-sync"@, "display-resample"@),
        text_property("loop-file"@, "inf"@),
        PlayerAction::SetProperty { name: "keepaspect"@, to: PropertyValue::Flag(true) },
        PlayerAction::SetProperty { name: "panscan"@, to: PropertyValue::Number(1) },
        text_property("background-color"@, "#00000000"@),
        text_property("terminal"@, "no"@),
    ]
}

/// What comes behind the options of the user.
pub open spec fn closing(video: Seq<char>) -> Seq<PlayerAction<Seq<char>>> {
    seq![
        PlayerAction::CreateRenderContext,
        PlayerAction::WatchUpdates { signal: UPDATE_SIGNAL },
        PlayerAction::LoadFile { path: video },
    ]
}

/// The options of the user, if there are any.
pub open spec fn requested_options(mpv_options: Option<Seq<char>>) -> Seq<OptionEntry<Seq<char>>> {
    match mpv_options {
        Some(text) => options_of(text),
        None => Seq::empty(),
    }
}

/// All that is done to play `video` with the user's options.
pub open spec fn player_script(
    mpv_options: Option<Seq<char>>,
    video: Seq<char>,
) -> Seq<PlayerAction<Seq<char>>> {
    opening() + requested_options(mpv_options).map_values(
        |entry: OptionEntry<Seq<char>>| option_action(entry),
    ) + closing(video)
}

/// Whether the set-up goes on when the action fails: only an option of the user
/// may fail.
pub open spec fn may_fail(action: PlayerAction<Seq<char>>) -> bool {
    action is SetOption
}

/// Whether the set-up goes on after an action that succeeded, or did not.
pub open spec fn advances(action: PlayerAction<Seq<char>>, succeeded: bool) -> bool {
    succeeded || may_fail(action)
}

/// How far the set-up comes: `succeeds` says of each action whether it would
/// succeed.
pub open spec fn progress(
    script: Seq<PlayerAction<Seq<char>>>,
    succeeds: spec_fn(int) -> bool,
    done: int,
) -> int
    decreases script.len() - done,
{
    if 0 <= done < script.len() && advances(script[done], succeeds(done)) {
        progress(script, succeeds, done + 1)
    } else {
        done
    }
}

/// What an action makes that has to be given back.
pub open spec fn makes(action: PlayerAction<Seq<char>>) -> Seq<Release> {
    match action {
        PlayerAction::Create => seq![Release::Player],
        PlayerAction::CreateRenderContext => seq![Release::RenderContext],
        _ => Seq::empty(),
    }
}

/// What there is to give back after the actions, in the order in which that
/// happens: what was made last goes first.
pub open spec fn releases_after(actions: Seq<PlayerAction<Seq<char>>>) -> Seq<Release>
    decreases actions.len(),
{
    if actions.len() == 0 {
        Seq::empty()
    } else {
        makes(actions.last()) + releases_after(actions.drop_last())
    }
}

/// The warning about an option that the player did not take.
pub open spec fn option_warning(text: Seq<char>, cause: Seq<char>) -> Seq<char> {
    "failed to set mpv option "@ + text + ": "@ + cause
}

/// Reads the user's options: comma-separated, each a pair `key=value`. White
/// space around an option, a key or a value does not count, nor do empty options.
pub fn parse_options(text: &str) -> (entries: Vec<OptionEntry<String>>)
    ensures
        entry_views(entries@) == options_of(text@),
{
    let chars = crate::text::characters(text);
    let ghost all = text@;
    let mut entries: Vec<OptionEntry<String>> = Vec::new();
    let mut start: usize = 0;
    let mut more: bool = true;
    assert(all.skip(0) == all);
    while more
        invariant
            chars@ == text@,
            all == text@,
            start <= chars@.len(),
            more ==> entry_views(entries@) + options_of(all.skip(start as int)) == options_of(all),
            !more ==> entry_views(entries@) == options_of(all),
        decreases chars@.len() - start + (if more {
            1int
        } else {
            0int
        }),
    {
        let len: usize = chars.len();
        let ghost rest = all.skip(start as int);
        let ghost before = entry_views(entries@);
        let end = find(&chars, start, len, ',');
        let (low, high) = trim_bounds(&chars, start, end);
        let ghost piece = rest.take(end - start);
        proof {
            assert(chars@.subrange(start as int, len as int) == rest);
            assert(chars@.subrange(start as int, end as int) == piece);
            crate::text::position_is_first(rest, ',');
        }
        let ghost trimmed = crate::text::trim(piece);
        if low < high {
            let entry = parse_entry(text, &chars, low, high);
            entries.push(entry);
            assert(entry_views(entries@) == before.push(entry_of(trimmed)));
        }
        proof {
            let pieces = crate::text::split(rest, ',');
            assert(pieces[0] == piece) by {
                if end == len {
                    assert(rest.take(end - start) == rest);
                }
            }
            if end < len {
                assert(rest.skip(end - start + 1) == all.skip(end + 1));
                assert(pieces.skip(1) == crate::text::split(all.skip(end + 1), ','));
            } else {
                assert(pieces.skip(1) == Seq::<Seq<char>>::empty());
                assert(entries_of(pieces.skip(1)) == Seq::<OptionEntry<Seq<char>>>::empty());
            }
            if low < high {
                assert(entry_views(entries@) + entries_of(pieces.skip(1)) == before + (seq![
                    entry_of(trimmed),
                ] + entries_of(pieces.skip(1))));
            }
            assert(entry_views(entries@) + entries_of(pieces.skip(1)) == options_of(all));
        }
        if end < len {
            start = end + 1;
        } else {
            more = false;
        }
    }
    entries
}

/// Reads the trimmed option that the characters from `low` on and before `high`
/// are.
fn parse_entry(text: &str, chars: &Vec<char>, low: usize, high: usize) -> (entry: OptionEntry<
    String,
>)
    requires
        chars@ == text@,
        low <= high <= chars@.len(),
    ensures
        entry@ == entry_of(text@.subrange(low as int, high as int)),
{
    let ghost trimmed = text@.subrange(low as int, high as int);
    let equals = find(chars, low, high, '=');
    let written = part(text, low, high);
    if equals < high {
        let (key_low, key_high) = trim_bounds(chars, low, equals);
        let (value_low, value_high) = trim_bounds(chars, equals + 1, high);
        assert(trimmed.take(equals - low) == text@.subrange(low as int, equals as int));
        assert(trimmed.skip(equals - low + 1) == text@.subrange(equals + 1, high as int));
        OptionEntry::Setting {
            text: written,
            key: part(text, key_low, key_high),
            value: part(text, value_low, value_high),
        }
    } else {
        OptionEntry::Invalid { text: written }
    }
}

/// An action that sets the property `name` to a text.
fn set_text(name: &str, value: &str) -> (action: PlayerAction<String>)
    ensures
        action@ == text_property(name@, value@),
{
    PlayerAction::SetProperty { name: name.to_owned(), to: PropertyValue::Text(value.to_owned()) }
}

/// The set-up of the player, as far as it has come.
#[derive(Debug)]
pub struct PlayerSetup {
    /// All that is to be done, in order.
    pub script: Vec<PlayerAction<String>>,
    /// How much of it is done.
    pub done: usize,
}

impl PlayerSetup {
    /// Whether the set-up is somewhere between its start and its end.
    pub open spec fn wf(self) -> bool {
        self.done <= self.script@.len()
    }

    /// What is to be done next.
    pub open spec fn pending(self) -> PlayerAction<Seq<char>> {
        self.script@[self.done as int]@
    }

    /// What the set-up has made so far, in the order in which it is given back.
    pub open spec fn releases(self) -> Seq<Release> {
        releases_after(action_views(self.script@).take(self.done as int))
    }

    /// The set-up for playing `video` with the options of the user.
    pub fn new(mpv_options: &Option<String>, video: &str) -> (setup: PlayerSetup)
        ensures
            setup.wf(),
            setup.done == 0,
            action_views(setup.script@) == player_script(crate::text::text_of(*mpv_options), video@),
    {
        let mut script: Vec<PlayerAction<String>> = Vec::new();
        script.push(PlayerAction::Create);
        script.push(set_text("vo", "libmpv"));
        script.push(set_text("hwdec", "auto"));
        script.push(set_text("video-sync", "display-resample"));
        script.push(set_text("loop-file", "inf"));
        script.push(
            PlayerAction::SetProperty {
                name: "keepaspect".to_owned(),
                to: PropertyValue::Flag(true),
            },
        );
        script.push(
            PlayerAction::SetProperty { name: "panscan".to_owned(), to: PropertyValue::Number(1) },
        );
        script.push(set_text("background-color", "#00000000"));
        script.push(set_text("terminal", "no"));
        assert(action_views(script@) == opening());
        let ghost options = requested_options(crate::text::text_of(*mpv_options));
        let ghost acts = options.map_values(|entry: OptionEntry<Seq<char>>| option_action(entry));
        if let Some(text) = mpv_options {
            let entries = parse_options(text.as_str());
            append_options(&mut script, entries);
        }
        assert(action_views(script@) == opening() + acts);
        script.push(PlayerAction::CreateRenderContext);
        script.push(PlayerAction::WatchUpdates { signal: UPDATE_SIGNAL });
        script.push(PlayerAction::LoadFile { path: video.to_owned() });
        assert(action_views(script@) == opening() + acts + closing(video@));
        PlayerSetup { script, done: 0 }
    }

    /// What is to be done next, or `None` once the video is loaded.
    pub fn next(&self) -> (action: Option<&PlayerAction<String>>)
        requires
            self.wf(),
        ensures
            action is Some <==> self.done < self.script@.len(),
            action matches Some(held) ==> held@ == self.pending(),
    {
        if self.done < self.script.len() {
            Some(&self.script[self.done])
        } else {
            None
        }
    }

    /// What a set-up that has failed gives back, in this order.
    pub fn give_back(&self) -> (releases: Vec<Release>)
        requires
            self.wf(),
        ensures
            releases@ == self.releases(),
    {
        let ghost actions = action_views(self.script@);
        let mut releases: Vec<Release> = Vec::new();
        let mut i: usize = self.done;
        assert(releases@ + releases_after(actions.take(i as int)) == self.releases());
        while i > 0
            invariant
                i <= self.done,
                self.wf(),
                actions == action_views(self.script@),
                releases@ + releases_after(actions.take(i as int)) == self.releases(),
            decreases i,
        {
            let ghost before = releases@;
            i = i - 1;
            assert(actions.take(i + 1).drop_last() == actions.take(i as int));
            assert(actions.take(i + 1).last() == self.script@[i as int]@);
            match &self.script[i] {
                PlayerAction::Create => {
                    releases.push(Release::Player);
                },
                PlayerAction::CreateRenderContext => {
                    releases.push(Release::RenderContext);
                },
                _ => {},
            }
            assert(releases@ == before + makes(self.script@[i as int]@));
            assert(before + (makes(self.script@[i as int]@) + releases_after(actions.take(i as int)))
                == releases@ + releases_after(actions.take(i as int)));
        }
        assert(releases@ + releases_after(actions.take(0)) == releases@);
        releases
    }

    /// Goes on after the pending action was tried.
    ///
    /// Where it failed and it was an option of the user, the set-up goes on and
    /// the result is a warning. Where anything else failed, that is the end of
    /// it, and the result is the cause: what was made so far is given back as
    /// `give_back` says.
    pub fn advance(&mut self, outcome: Result<(), String>) -> (result: Result<
        Option<String>,
        String,
    >)
        requires
            old(self).wf(),
            old(self).done < old(self).script@.len(),
        ensures
            final(self).wf(),
            final(self).script@ == old(self).script@,
            result is Err ==> final(self).releases() == old(self).releases(),
            final(self).done == old(self).done + if advances(old(self).pending(), outcome is Ok) {
                1int
            } else {
                0int
            },
            result is Ok <==> advances(old(self).pending(), outcome is Ok),
            outcome is Ok ==> result == Ok::<Option<String>, String>(None),
            outcome matches Err(cause) ==> match old(self).pending() {
                PlayerAction::SetOption { text, .. } => result matches Ok(Some(warning))
                    && warning@ == option_warning(text, cause@),
                _ => result matches Err(passed) && passed@ == cause@,
            },
    {
        assert(self.done < self.script.len());
        match outcome {
            Ok(()) => {
                self.done = self.done + 1;
                Ok(None)
            },
            Err(cause) => {
                if let PlayerAction::SetOption { text, .. } = &self.script[self.done] {
                    let named = join("failed to set mpv option ", text.as_str());
                    let marked = join(named.as_str(), ": ");
                    let warning = join(marked.as_str(), cause.as_str());
                    self.done = self.done + 1;
                    Ok(Some(warning))
                } else {
                    Err(cause)
                }
            },
        }
    }
}

/// Adds what is done with each of the options to the script.
fn append_options(script: &mut Vec<PlayerAction<String>>, entries: Vec<OptionEntry<String>>)
    ensures
        action_views(final(script)@) == action_views(old(script)@) + entry_views(
            entries@,
        ).map_values(|entry: OptionEntry<Seq<char>>| option_action(entry)),
{
    let ghost start = action_views(script@);
    let ghost acts = entry_views(entries@).map_values(
        |entry: OptionEntry<Seq<char>>| option_action(entry),
    );
    assert(start + acts.take(0) == start);
    for entry in it: entries
        invariant
            it.seq() == entries@,
            acts == entry_views(entries@).map_values(
                |entry: OptionEntry<Seq<char>>| option_action(entry),
            ),
            action_views(script@) == start + acts.take(it.index() as int),
    {
        let ghost before = action_views(script@);
        let ghost act = option_action(entry@);
        match entry {
            OptionEntry::Setting { text, key, value } => {
                script.push(PlayerAction::SetOption { text, key, value });
            },
            OptionEntry::Invalid { text } => {
                script.push(PlayerAction::WarnInvalid { text });
            },
        }
        assert(action_views(script@) == before.push(act));
        assert(acts.take(it.index() + 1) == acts.take(it.index() as int).push(act));
        assert(start + acts.take(it.index() + 1) == (start + acts.take(it.index() as int)).push(
            act,
        ));
    }
    assert(acts.take(acts.len() as int) == acts);
}

/// The options of two texts with a comma between them are the options of the
/// first and then those of the second.
pub proof fn options_concatenate(first: Seq<char>, second: Seq<char>)
    ensures
        options_of(first.push(',') + second) == options_of(first) + options_of(second),
{
    crate::text::split_distributes(first, second, ',');
    lemma_entries_concatenate(crate::text::split(first, ','), crate::text::split(second, ','));
}

/// Each option is written in a text of its own: not empty, without a comma, and
/// without white space around it.
pub proof fn options_are_tidy(text: Seq<char>)
    ensures
        forall|i: int|
            #![trigger options_of(text)[i]]
            0 <= i < options_of(text).len() ==> {
                let written = entry_text(options_of(text)[i]);
                &&& options_of(text)[i] == entry_of(written)
                &&& written.len() > 0
                &&& crate::text::trim(written) == written
                &&& !written.contains(',')
            },
{
    crate::text::pieces_hold_no_separator(text, ',');
    lemma_entries_are_tidy(crate::text::split(text, ','));
}

/// A setting has its key before the first `=` and its value behind it: the key
/// holds no `=`, and neither has white space around it.
pub proof fn settings_are_pairs(written: Seq<char>)
    ensures
        entry_of(written) is Setting <==> written.contains('='),
        entry_of(written) matches OptionEntry::Setting { text, key, value } ==> {
            &&& text == written
            &&& !key.contains('=')
            &&& crate::text::trim(key) == key
            &&& crate::text::trim(value) == value
        },
{
    crate::text::position_is_first(written, '=');
    let equals = crate::text::position(written, '=');
    if equals < written.len() {
        assert(written[equals] == '=');
        let before = written.take(equals);
        let behind = written.skip(equals + 1);
        crate::text::trimmed_has_no_white_space_around(before);
        crate::text::trimmed_has_no_white_space_around(behind);
        lemma_trim_holds_no_more(before);
        assert(!before.contains('='));
    }
}

/// Writing the options again, with commas between them, means the same options.
pub proof fn options_survive_rewriting(text: Seq<char>)
    requires
        options_of(text).len() > 0,
    ensures
        options_of(
            crate::text::join_pieces(
                options_of(text).map_values(|entry: OptionEntry<Seq<char>>| entry_text(entry)),
                ',',
            ),
        ) == options_of(text),
{
    let options = options_of(text);
    let written = options.map_values(|entry: OptionEntry<Seq<char>>| entry_text(entry));
    options_are_tidy(text);
    assert forall|i: int| 0 <= i < written.len() implies !(#[trigger] written[i]).contains(
        ',',
    ) by {
        assert(written[i] == entry_text(options_of(text)[i]));
    }
    crate::text::join_then_split(written, ',');
    lemma_tidy_entries_stay(options, written);
}

/// The options of the user come behind all of the wallpaper's own properties, so
/// that they override them, and before the video is loaded.
pub proof fn options_come_in_between(mpv_options: Option<Seq<char>>, video: Seq<char>, i: int)
    requires
        0 <= i < player_script(mpv_options, video).len(),
    ensures
        (player_script(mpv_options, video)[i] is SetOption || player_script(
            mpv_options,
            video,
        )[i] is WarnInvalid) <==> opening().len() <= i < player_script(mpv_options, video).len()
            - closing(video).len(),
        player_script(mpv_options, video)[i] is SetProperty ==> i < opening().len(),
        player_script(mpv_options, video)[i] is LoadFile <==> i == player_script(
            mpv_options,
            video,
        ).len() - 1,
{
    let options = requested_options(mpv_options);
    let acts = options.map_values(|entry: OptionEntry<Seq<char>>| option_action(entry));
    let script = player_script(mpv_options, video);
    if i < opening().len() {
        assert(script[i] == opening()[i]);
    } else if i < opening().len() + acts.len() {
        assert(script[i] == option_action(options[i - opening().len()]));
    } else {
        assert(script[i] == closing(video)[i - opening().len() - acts.len()]);
    }
}

/// The set-up comes to its end exactly if every action succeeds that is not an
/// option of the user.
pub proof fn only_options_may_fail(
    script: Seq<PlayerAction<Seq<char>>>,
    succeeds: spec_fn(int) -> bool,
)
    ensures
        progress(script, succeeds, 0) == script.len() <==> forall|i: int|
            0 <= i < script.len() ==> #[trigger] succeeds(i) || script[i] is SetOption,
{
    lemma_progress(script, succeeds, 0);
}

/// A set-up that fails gives back what it has made: nothing where the player could
/// not be created, the player where the render context could not be, and otherwise
/// the render context and then the player that it lives on.
pub proof fn a_failed_set_up_gives_the_context_back_before_its_player(
    mpv_options: Option<Seq<char>>,
    video: Seq<char>,
    done: int,
)
    requires
        0 <= done <= player_script(mpv_options, video).len(),
    ensures
        ({
            let script = player_script(mpv_options, video);
            let context = script.len() - closing(video).len();
            let releases = releases_after(script.take(done));
            &&& script[0] is Create
            &&& script[context] is CreateRenderContext
            &&& releases == if done == 0 {
                Seq::empty()
            } else if done <= context {
                seq![Release::Player]
            } else {
                seq![Release::RenderContext, Release::Player]
            }
            &&& crate::release::context_before_player(releases)
        }),
    decreases done,
{
    let script = player_script(mpv_options, video);
    let context = script.len() - closing(video).len();
    assert(script[0] == opening()[0]);
    assert(script[context] == closing(video)[0]);
    if done > 0 {
        let i = done - 1;
        a_failed_set_up_gives_the_context_back_before_its_player(mpv_options, video, i);
        assert(script.take(done).drop_last() == script.take(i));
        options_come_in_between(mpv_options, video, i);
        if 0 < i < opening().len() {
            assert(script[i] == opening()[i]);
        } else if i >= context {
            assert(script[i] == closing(video)[i - context]);
        }
        if i == 0 {
            assert(makes(script[0]) + Seq::<Release>::empty() == seq![Release::Player]);
        } else if i == context {
            assert(makes(script[i]) + seq![Release::Player] == seq![
                Release::RenderContext,
                Release::Player,
            ]);
        } else {
            assert(makes(script[i]) == Seq::<Release>::empty());
            assert(makes(script[i]) + releases_after(script.take(i)) == releases_after(
                script.take(i),
            ));
        }
    }
}

proof fn lemma_progress(
    script: Seq<PlayerAction<Seq<char>>>,
    succeeds: spec_fn(int) -> bool,
    done: int,
)
    requires
        0 <= done <= script.len(),
    ensures
        progress(script, succeeds, done) == script.len() <==> forall|i: int|
            done <= i < script.len() ==> #[trigger] succeeds(i) || script[i] is SetOption,
    decreases script.len() - done,
{
    if done < script.len() {
        if advances(script[done], succeeds(done)) {
            lemma_progress(script, succeeds, done + 1);
        } else {
            assert(!succeeds(done));
        }
    }
}

proof fn lemma_entries_concatenate(first: Seq<Seq<char>>, second: Seq<Seq<char>>)
    ensures
        entries_of(first + second) == entries_of(first) + entries_of(second),
    decreases first.len(),
{
    if first.len() == 0 {
        assert(first + second == second);
    } else {
        lemma_entries_concatenate(first.skip(1), second);
        assert((first + second).skip(1) == first.skip(1) + second);
        assert((first + second)[0] == first[0]);
    }
}

proof fn lemma_entries_are_tidy(pieces: Seq<Seq<char>>)
    requires
        forall|i: int| 0 <= i < pieces.len() ==> !(#[trigger] pieces[i]).contains(','),
    ensures
        forall|i: int|
            #![trigger entries_of(pieces)[i]]
            0 <= i < entries_of(pieces).len() ==> {
                let written = entry_text(entries_of(pieces)[i]);
                &&& entries_of(pieces)[i] == entry_of(written)
                &&& written.len() > 0
                &&& crate::text::trim(written) == written
                &&& !written.contains(',')
            },
    decreases pieces.len(),
{
    if pieces.len() > 0 {
        let rest = pieces.skip(1);
        assert forall|i: int| 0 <= i < rest.len() implies !(#[trigger] rest[i]).contains(',') by {
            assert(rest[i] == pieces[i + 1]);
        }
        lemma_entries_are_tidy(rest);
        let text = crate::text::trim(pieces[0]);
        crate::text::trimmed_has_no_white_space_around(pieces[0]);
        lemma_trim_holds_no_more(pieces[0]);
        assert(!pieces[0].contains(','));
        let entries = entries_of(pieces);
        if text.len() > 0 {
            assert forall|i: int| #![trigger entries[i]] 0 <= i < entries.len() implies {
                let written = entry_text(entries[i]);
                &&& entries[i] == entry_of(written)
                &&& written.len() > 0
                &&& crate::text::trim(written) == written
                &&& !written.contains(',')
            } by {
                if i == 0 {
                    assert(entries[0] == entry_of(text));
                } else {
                    assert(entries[i] == entries_of(rest)[i - 1]);
                }
            }
        }
    }
}

proof fn lemma_tidy_entries_stay(options: Seq<OptionEntry<Seq<char>>>, written: Seq<Seq<char>>)
    requires
        options.len() == written.len(),
        forall|i: int|
            #![trigger options[i]]
            0 <= i < options.len() ==> options[i] == entry_of(written[i]) && written[i].len() > 0
                && crate::text::trim(written[i]) == written[i],
    ensures
        entries_of(written) == options,
    decreases options.len(),
{
    if options.len() > 0 {
        let rest = options.skip(1);
        assert forall|i: int| #![trigger rest[i]] 0 <= i < rest.len() implies rest[i] == entry_of(
            written.skip(1)[i],
        ) && written.skip(1)[i].len() > 0 && crate::text::trim(written.skip(1)[i])
            == written.skip(1)[i] by {
            assert(rest[i] == options[i + 1]);
        }
        lemma_tidy_entries_stay(rest, written.skip(1));
        assert(options[0] == entry_of(written[0]));
        assert(seq![options[0]] + rest == options);
    } else {
        assert(options == Seq::<OptionEntry<Seq<char>>>::empty());
    }
}

/// What a trimmed text holds, the text held.
proof fn lemma_trim_holds_no_more(text: Seq<char>)
    ensures
        forall|c: char| crate::text::trim(text).contains(c) ==> text.contains(c),
{
    crate::text::trim_takes_off_white_space_only(text);
    let (from, to) = choose|from: int, to: int|
        #![trigger text.subrange(from, to)]
        0 <= from <= to <= text.len() && crate::text::trim(text) == text.subrange(from, to) && (
        forall|i: int|
            0 <= i < text.len() && !(from <= i < to) ==> crate::text::white_space(
                #[trigger] text[i],
            ));
    assert forall|c: char| crate::text::trim(text).contains(c) implies text.contains(c) by {
        let i = choose|i: int|
            0 <= i < crate::text::trim(text).len() && crate::text::trim(text)[i] == c;
        assert(text[from + i] == c);
    }
}

/// A setting is all that stands before and behind its first `=`, up to the white space
/// around each side. White space inside of a key or a value belongs to it.
pub proof fn settings_hold_both_sides_in_full(before: Seq<char>, behind: Seq<char>)
    requires
        !before.contains('='),
    ensures
        entry_of(before.push('=') + behind) matches OptionEntry::Setting { text, key, value } && {
            &&& text == before.push('=') + behind
            &&& exists|from: int, to: int|
                #![trigger before.subrange(from, to)]
                0 <= from <= to <= before.len() && key == before.subrange(from, to) && (forall|i: int|
                    0 <= i < before.len() && !(from <= i < to) ==> crate::text::white_space(
                        #[trigger] before[i],
                    ))
            &&& exists|from: int, to: int|
                #![trigger behind.subrange(from, to)]
                0 <= from <= to <= behind.len() && value == behind.subrange(from, to) && (forall|
                    i: int,
                |
                    0 <= i < behind.len() && !(from <= i < to) ==> crate::text::white_space(
                        #[trigger] behind[i],
                    ))
            &&& key.len() > 0 ==> !crate::text::white_space(key.first())
                && !crate::text::white_space(key.last())
            &&& value.len() > 0 ==> !crate::text::white_space(value.first())
                && !crate::text::white_space(value.last())
        },
{
    let written = before.push('=') + behind;
    lemma_first_equals(before, behind);
    crate::text::trim_takes_off_white_space_only(before);
    crate::text::trim_takes_off_white_space_only(behind);
    crate::text::trimmed_has_no_white_space_around(before);
    crate::text::trimmed_has_no_white_space_around(behind);
    assert(written.take(before.len() as int) == before);
    assert(written.skip(before.len() as int + 1) == behind);
}

/// A pair that is written down is read back: the key and the value of `key=value` are
/// those, for any key without `=` and any value, if neither has white space around it.
/// The same goes for white space of any length around either.
pub proof fn written_settings_are_read_back(
    key: Seq<char>,
    value: Seq<char>,
    a: Seq<char>,
    b: Seq<char>,
    c: Seq<char>,
    d: Seq<char>,
)
    requires
        !key.contains('='),
        key.len() > 0 ==> !crate::text::white_space(key.first()) && !crate::text::white_space(
            key.last(),
        ),
        value.len() > 0 ==> !crate::text::white_space(value.first()) && !crate::text::white_space(
            value.last(),
        ),
        forall|i: int| 0 <= i < a.len() ==> crate::text::white_space(#[trigger] a[i]),
        forall|i: int| 0 <= i < b.len() ==> crate::text::white_space(#[trigger] b[i]),
        forall|i: int| 0 <= i < c.len() ==> crate::text::white_space(#[trigger] c[i]),
        forall|i: int| 0 <= i < d.len() ==> crate::text::white_space(#[trigger] d[i]),
    ensures
        entry_of(key.push('=') + value) == (OptionEntry::Setting {
            text: key.push('=') + value,
            key,
            value,
        }),
        entry_of((a + key + b).push('=') + (c + value + d)) == (OptionEntry::Setting {
            text: (a + key + b).push('=') + (c + value + d),
            key,
            value,
        }),
{
    let none = Seq::<char>::empty();
    crate::text::only_white_space_around_is_trimmed(none, key, none);
    crate::text::only_white_space_around_is_trimmed(none, value, none);
    assert(none + key + none == key);
    assert(none + value + none == value);
    lemma_first_equals(key, value);
    let written = key.push('=') + value;
    assert(written.take(key.len() as int) == key);
    assert(written.skip(key.len() as int + 1) == value);
    let (wide_key, wide_value) = (a + key + b, c + value + d);
    crate::text::only_white_space_around_is_trimmed(a, key, b);
    crate::text::only_white_space_around_is_trimmed(c, value, d);
    assert forall|i: int| 0 <= i < wide_key.len() implies #[trigger] wide_key[i] != '=' by {
        if i < a.len() {
            assert(wide_key[i] == a[i]);
        } else if i < a.len() + key.len() {
            assert(wide_key[i] == key[i - a.len()]);
            assert(key.contains(key[i - a.len()]));
        } else {
            assert(wide_key[i] == b[i - a.len() - key.len()]);
        }
    }
    lemma_first_equals(wide_key, wide_value);
    let wide = wide_key.push('=') + wide_value;
    assert(wide.take(wide_key.len() as int) == wide_key);
    assert(wide.skip(wide_key.len() as int + 1) == wide_value);
}

/// What has no `=` is no setting, and is kept as it was written.
pub proof fn options_without_equals_sign_are_kept_as_written(written: Seq<char>)
    requires
        !written.contains('='),
    ensures
        entry_of(written) == (OptionEntry::<Seq<char>>::Invalid { text: written }),
{
    crate::text::position_is_first(written, '=');
}

proof fn lemma_first_equals(before: Seq<char>, behind: Seq<char>)
    requires
        !before.contains('='),
    ensures
        crate::text::position(before.push('=') + behind, '=') == before.len(),
{
    let written = before.push('=') + behind;
    assert forall|i: int| 0 <= i < before.len() implies #[trigger] written[i] != '=' by {
        assert(written[i] == before[i]);
        assert(before.contains(before[i]));
    }
    crate::text::lemma_position_is(written, '=', before.len() as int);
}

/// A text without a comma is one option, or none if there is only white space. With
/// `options_concatenate`, this says what the options of any text are.
pub proof fn a_text_without_comma_is_one_option(
    before: Seq<char>,
    written: Seq<char>,
    behind: Seq<char>,
)
    requires
        !(before + written + behind).contains(','),
        forall|i: int| 0 <= i < before.len() ==> crate::text::white_space(#[trigger] before[i]),
        forall|i: int| 0 <= i < behind.len() ==> crate::text::white_space(#[trigger] behind[i]),
        written.len() > 0 ==> !crate::text::white_space(written.first())
            && !crate::text::white_space(written.last()),
    ensures
        written.len() == 0 ==> options_of(before + written + behind).len() == 0,
        written.len() > 0 ==> options_of(before + written + behind) == seq![entry_of(written)],
{
    let text = before + written + behind;
    crate::text::a_text_without_separator_is_one_piece(text, ',');
    crate::text::only_white_space_around_is_trimmed(before, written, behind);
    let pieces = crate::text::split(text, ',');
    assert(pieces.skip(1) == Seq::<Seq<char>>::empty());
    assert(entries_of(pieces.skip(1)) == Seq::<OptionEntry<Seq<char>>>::empty());
}

/// What the wallpaper depends on is the same for every video and every user, and comes
/// before any option. Without options there is nothing between it and the render
/// context.
pub proof fn the_opening_does_not_depend_on_the_user(
    mpv_options: Option<Seq<char>>,
    video: Seq<char>,
    other_options: Option<Seq<char>>,
    other_video: Seq<char>,
)
    ensures
        player_script(mpv_options, video).len() >= 12,
        player_script(mpv_options, video).take(9) == player_script(other_options, other_video).take(
            9,
        ),
        player_script(None, video).len() == 12,
{
    let script = player_script(mpv_options, video);
    let other = player_script(other_options, other_video);
    assert(script.take(9) =~= opening());
    assert(other.take(9) =~= opening());
}

/// Every option is passed on as it was read, in the order in which the user wrote them:
/// a setting with its key and its value, and anything else as a warning.
pub proof fn every_option_is_passed_on(text: Seq<char>, video: Seq<char>, i: int)
    requires
        0 <= i < options_of(text).len(),
    ensures
        player_script(Some(text), video).len() == 9 + options_of(text).len() + 3,
        options_of(text)[i] matches OptionEntry::Setting { text: written, key, value }
            ==> player_script(Some(text), video)[9 + i] == (PlayerAction::SetOption {
            text: written,
            key,
            value,
        }),
        options_of(text)[i] matches OptionEntry::Invalid { text: written } ==> player_script(
            Some(text),
            video,
        )[9 + i] == (PlayerAction::<Seq<char>>::WarnInvalid { text: written }),
{
    let acts = options_of(text).map_values(|entry: OptionEntry<Seq<char>>| option_action(entry));
    assert(player_script(Some(text), video)[9 + i] == acts[i]);
}

/// The set-up ends with the render context, the watch on its updates, and the video, by
/// the path that the user gave.
pub proof fn the_set_up_ends_with_the_video(mpv_options: Option<Seq<char>>, video: Seq<char>)
    ensures
        ({
            let script = player_script(mpv_options, video);
            let end = script.len();
            &&& script[end - 3] == PlayerAction::<Seq<char>>::CreateRenderContext
            &&& script[end - 2] == (PlayerAction::<Seq<char>>::WatchUpdates { signal: 1 })
            &&& script[end - 1] == (PlayerAction::LoadFile { path: video })
        }),
{
    let script = player_script(mpv_options, video);
    let end = script.len();
    assert(script[end - 3] == closing(video)[0]);
    assert(script[end - 2] == closing(video)[1]);
    assert(script[end - 1] == closing(video)[2]);
}

/// Only an option of the user may fail; and what succeeds goes on.
pub proof fn the_set_up_goes_on_after_success(action: PlayerAction<Seq<char>>)
    ensures
        advances(action, true),
        advances(action, false) <==> action is SetOption,
{
}

/// The warning about an option names it as it was written, and then the cause, both in
/// full.
pub proof fn warnings_name_the_option_and_the_cause(text: Seq<char>, cause: Seq<char>)
    ensures
        ({
            let warning = option_warning(text, cause);
            let named = "failed to set mpv option "@.len() as int;
            let told = named + text.len() + ": "@.len();
            &&& warning.len() == told + cause.len()
            &&& warning.take(named) == "failed to set mpv option "@
            &&& warning.subrange(named, told) == text + ": "@
            &&& warning.skip(told) == cause
        }),
{
    let warning = option_warning(text, cause);
    let named = "failed to set mpv option "@.len() as int;
    let told = named + text.len() + ": "@.len();
    assert(warning.take(named) =~= "failed to set mpv option "@);
    assert(warning.subrange(named, told) =~= text + ": "@);
    assert(warning.skip(told) =~= cause);
}

/// The views of entries and actions show each of their fields as it is.
pub proof fn the_views_show_the_fields(entry: OptionEntry<String>, action: PlayerAction<String>)
    ensures
        entry matches OptionEntry::Setting { text, key, value } ==> entry@
            == (OptionEntry::Setting { text: text@, key: key@, value: value@ }),
        entry matches OptionEntry::Invalid { text } ==> entry@ == (OptionEntry::Invalid {
            text: text@,
        }),
        action is Create <==> action@ is Create,
        action is CreateRenderContext <==> action@ is CreateRenderContext,
        action matches PlayerAction::SetOption { text, key, value } ==> action@
            == (PlayerAction::SetOption { text: text@, key: key@, value: value@ }),
        action matches PlayerAction::WarnInvalid { text } ==> action@
            == (PlayerAction::WarnInvalid { text: text@ }),
        action matches PlayerAction::LoadFile { path } ==> action@ == (PlayerAction::LoadFile {
            path: path@,
        }),
        action matches PlayerAction::WatchUpdates { signal } ==> action@
            == (PlayerAction::<Seq<char>>::WatchUpdates { signal }),
        action matches PlayerAction::SetProperty { name, to } ==> {
            &&& action@ is SetProperty && action@->name == name@
            &&& to matches PropertyValue::Text(text) ==> action@->to == PropertyValue::Text(text@)
            &&& to matches PropertyValue::Flag(flag) ==> action@->to == PropertyValue::<
                Seq<char>,
            >::Flag(flag)
            &&& to matches PropertyValue::Number(number) ==> action@->to == PropertyValue::<
                Seq<char>,
            >::Number(number)
        },
{
}

/// What is pending is the first action that is not done yet, and the views of a script
/// are those of its actions, one for one.
pub proof fn actions_are_pending_in_order(setup: PlayerSetup, i: int)
    requires
        0 <= i < setup.script@.len(),
    ensures
        setup.wf() <==> setup.done <= setup.script@.len(),
        setup.done == i ==> setup.pending() == setup.script@[i]@,
        action_views(setup.script@).len() == setup.script@.len(),
        action_views(setup.script@)[i] == setup.script@[i]@,
{
}

/// The views of entries are those of each of them, one for one.
pub proof fn entries_have_their_views(entries: Seq<OptionEntry<String>>, i: int)
    requires
        0 <= i < entries.len(),
    ensures
        entry_views(entries).len() == entries.len(),
        entry_views(entries)[i] == entries[i]@,
{
}

} // verus!
