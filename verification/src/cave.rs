//! The values that the daemon is configured with: the player, the settings,
//! the schedule of streams and the stored token.

use crate::lookup::{first_index, lemma_first_index, lemma_first_index_is};
use crate::text::{
    decimal,
    decimal_digits,
    field,
    nth_field,
    parse_u16,
    parse_u32,
    parse_unsigned,
    NumberError,
};
use crate::twitch_socket::api_structs::{channel_of, SearchDataView, StreamSearch};
use std::path::Path;
use std::path::PathBuf;
use vstd::prelude::*;
use vstd::string::*;

verus! {

/// `std::path::Path`: a borrowed path. It is carried through and never looked
/// into.
#[verifier::external_type_specification]
#[verifier::external_body]
pub struct ExPath(Path);

/// `std::path::PathBuf`: an owned path. It is carried through and never
/// looked into.
#[verifier::external_type_specification]
#[verifier::external_body]
pub struct ExPathBuf(PathBuf);

/// The owned path that `Path::to_path_buf` makes of a borrowed one.
pub uninterp spec fn owned_path(path: &Path) -> PathBuf;

/// `Path::to_path_buf`: copies the borrowed path into an owned one. The result
/// depends on the path alone.
#[verifier::external_body]
fn to_path_buf(path: &Path) -> (owned: PathBuf)
    ensures
        owned == owned_path(path),
{
    path.to_path_buf()
}

/// Which player process to use.
#[derive(Clone, Copy, Debug, PartialEq, Eq, Structural)]
pub enum Player {
    Mpv,
    Streamlink,
}

/// The configuration settings of the program.
#[derive(Debug)]
pub struct Settings {
    pub ver: (u8, u8),
    pub player: Player,
    pub schedule: PathBuf,
    pub profile: (String, u16),
}

impl Settings {
    /// Settings with the default values: mpv as the player and the profile
    /// `normal` at 1080 lines. `path` is the directory of the schedule.
    #[must_use]
    pub fn new(path: &Path) -> (settings: Self)
        ensures
            settings.ver == (0u8, 1u8),
            settings.player == Player::Mpv,
            settings.schedule == owned_path(path),
            settings.profile.0@ == "normal"@,
            settings.profile.1 == 1080,
    {
        Settings {
            ver: (0, 1),
            player: Player::Mpv,
            schedule: to_path_buf(path),
            profile: (String::from_str("normal"), 1080),
        }
    }
}

/// Individual twitch stream settings.
#[derive(Debug, PartialEq, Eq)]
pub struct StreamConfig {
    pub name: String,
    pub id: u32,
    pub quality_overides: Vec<(String, u16)>,
    pub streams_to_close_on: Vec<String>,
    pub streams_to_open_on: Vec<String>,
}

/// What a [`StreamConfig`] holds, as plain mathematical values.
pub struct StreamConfigView {
    pub name: Seq<char>,
    pub id: u32,
    pub quality_overides: Seq<(Seq<char>, u16)>,
    pub streams_to_close_on: Seq<Seq<char>>,
    pub streams_to_open_on: Seq<Seq<char>>,
}

impl DeepView for StreamConfig {
    type V = StreamConfigView;

    open spec fn deep_view(&self) -> StreamConfigView {
        StreamConfigView {
            name: self.name@,
            id: self.id,
            quality_overides: self.quality_overides.deep_view(),
            streams_to_close_on: self.streams_to_close_on.deep_view(),
            streams_to_open_on: self.streams_to_open_on.deep_view(),
        }
    }
}

impl View for StreamConfig {
    type V = StreamConfigView;

    open spec fn view(&self) -> StreamConfigView {
        self.deep_view()
    }
}

/// A copy of `texts`.
pub fn copy_texts(texts: &Vec<String>) -> (copy: Vec<String>)
    ensures
        copy.deep_view() == texts.deep_view(),
{
    let mut copy: Vec<String> = Vec::new();
    let mut at: usize = 0;
    while at < texts.len()
        invariant
            at <= texts.len(),
            copy.len() == at,
            forall|i: int| 0 <= i < at ==> (#[trigger] copy[i])@ == texts[i]@,
        decreases texts.len() - at,
    {
        copy.push(texts[at].clone());
        at += 1;
    }
    assert(copy.deep_view() =~= texts.deep_view());
    copy
}

/// A copy of `overrides`.
pub fn copy_overrides(overrides: &Vec<(String, u16)>) -> (copy: Vec<(String, u16)>)
    ensures
        copy.deep_view() == overrides.deep_view(),
{
    let mut copy: Vec<(String, u16)> = Vec::new();
    let mut at: usize = 0;
    while at < overrides.len()
        invariant
            at <= overrides.len(),
            copy.len() == at,
            forall|i: int|
                0 <= i < at ==> (#[trigger] copy[i]).0@ == overrides[i].0@ && copy[i].1
                    == overrides[i].1,
        decreases overrides.len() - at,
    {
        copy.push((overrides[at].0.clone(), overrides[at].1));
        at += 1;
    }
    assert(copy.deep_view() =~= overrides.deep_view()) by {
        assert forall|i: int| 0 <= i < copy.len() implies copy.deep_view()[i]
            == overrides.deep_view()[i] by {
            assert(copy.deep_view()[i] == (copy[i].0@, copy[i].1));
        }
    }
    copy
}

impl Clone for StreamConfig {
    /// A copy that holds the same values.
    fn clone(&self) -> (copy: Self)
        ensures
            copy@ == self@,
    {
        StreamConfig {
            name: self.name.clone(),
            id: self.id,
            quality_overides: copy_overrides(&self.quality_overides),
            streams_to_close_on: copy_texts(&self.streams_to_close_on),
            streams_to_open_on: copy_texts(&self.streams_to_open_on),
        }
    }
}

/// Why a quality override given as text was not taken.
#[derive(Clone, Copy, Debug, PartialEq, Eq, Structural)]
pub enum OverrideError {
    /// The text has no comma, so no quality follows the profile.
    MissingQuality,
    /// What follows the first comma is no number that fits sixteen bits.
    Quality(NumberError),
}

/// The override that a text of the form `profile,quality` stands for. What
/// follows a second comma is not looked at.
pub open spec fn parse_override_spec(text: Seq<char>) -> Result<(Seq<char>, u16), OverrideError> {
    match field(text, ',', 1) {
        None => Err(OverrideError::MissingQuality),
        Some(quality) => match parse_unsigned(quality, 0xffff) {
            Err(error) => Err(OverrideError::Quality(error)),
            Ok(value) => Ok((field(text, ',', 0)->Some_0, value as u16)),
        },
    }
}

/// Whether `text` stands for no override.
pub open spec fn is_bad_override(text: Seq<char>) -> bool {
    parse_override_spec(text) is Err
}

/// The overrides that `texts` stand for, or the error of the first text that
/// stands for none.
pub open spec fn parse_overrides_spec(texts: Seq<Seq<char>>) -> Result<
    Seq<(Seq<char>, u16)>,
    OverrideError,
> {
    let bad = first_index(texts, |text: Seq<char>| is_bad_override(text));
    if bad < texts.len() {
        Err(parse_override_spec(texts[bad])->Err_0)
    } else {
        Ok(texts.map_values(|text: Seq<char>| parse_override_spec(text)->Ok_0))
    }
}

/// `overrides` after `applied` has been taken in: it replaces the first
/// override of the same profile, or is added at the end where there is none.
pub open spec fn with_override(overrides: Seq<(Seq<char>, u16)>, applied: (Seq<char>, u16)) -> Seq<
    (Seq<char>, u16),
> {
    let at = first_index(overrides, |held: (Seq<char>, u16)| held.0 == applied.0);
    if at < overrides.len() {
        overrides.update(at, applied)
    } else {
        overrides.push(applied)
    }
}

/// `overrides` after each of `applied` has been taken in, in order.
pub open spec fn with_overrides(
    overrides: Seq<(Seq<char>, u16)>,
    applied: Seq<(Seq<char>, u16)>,
) -> Seq<(Seq<char>, u16)>
    decreases applied.len(),
{
    if applied.len() == 0 {
        overrides
    } else {
        with_overrides(with_override(overrides, applied[0]), applied.drop_first())
    }
}

/// The position of the first config of `configs` that is named `name`, or the
/// length of `configs` where none is.
pub open spec fn position_of(configs: Seq<StreamConfigView>, name: Seq<char>) -> int {
    first_index(configs, |config: StreamConfigView| config.name == name)
}

/// `configs` after the stream named `name` has taken in `applied`: only the
/// first config of that name changes, and only in its overrides.
pub open spec fn with_edit(
    configs: Seq<StreamConfigView>,
    name: Seq<char>,
    applied: Seq<(Seq<char>, u16)>,
) -> Seq<StreamConfigView> {
    let at = position_of(configs, name);
    if at < configs.len() {
        configs.update(
            at,
            StreamConfigView {
                quality_overides: with_overrides(configs[at].quality_overides, applied),
                ..configs[at]
            },
        )
    } else {
        configs
    }
}

/// Whether no two of `overrides` are of the same profile.
pub open spec fn distinct_profiles(overrides: Seq<(Seq<char>, u16)>) -> bool {
    forall|i: int, j: int|
        0 <= i < j < overrides.len() ==> (#[trigger] overrides[i]).0 != (#[trigger] overrides[j]).0
}

/// Whether a schedule is as it should be: no two streams have the same name,
/// and no stream has two overrides of the same profile.
pub open spec fn well_formed(configs: Seq<StreamConfigView>) -> bool {
    &&& forall|i: int, j: int|
        0 <= i < j < configs.len() ==> (#[trigger] configs[i]).name != (#[trigger] configs[j]).name
    &&& forall|i: int|
        0 <= i < configs.len() ==> distinct_profiles((#[trigger] configs[i]).quality_overides)
}

/// Taking an override in never makes two overrides of one profile.
pub proof fn lemma_override_keeps_profiles_distinct(
    overrides: Seq<(Seq<char>, u16)>,
    applied: (Seq<char>, u16),
)
    requires
        distinct_profiles(overrides),
    ensures
        distinct_profiles(with_override(overrides, applied)),
{
    let same = |held: (Seq<char>, u16)| held.0 == applied.0;
    lemma_first_index(overrides, same);
    let at = first_index(overrides, same);
    let after = with_override(overrides, applied);
    assert forall|i: int, j: int| 0 <= i < j < after.len() implies (#[trigger] after[i]).0 != (
    #[trigger] after[j]).0 by {
        if at < overrides.len() {
            assert(same(overrides[at]));
            assert(after[i].0 == overrides[i].0);
            assert(after[j].0 == overrides[j].0);
        } else {
            if j == overrides.len() {
                assert(!same(overrides[i]));
            }
        }
    }
}

/// Taking overrides in, one after the other, never makes two overrides of
/// one profile.
pub proof fn lemma_overrides_keep_profiles_distinct(
    overrides: Seq<(Seq<char>, u16)>,
    applied: Seq<(Seq<char>, u16)>,
)
    requires
        distinct_profiles(overrides),
    ensures
        distinct_profiles(with_overrides(overrides, applied)),
    decreases applied.len(),
{
    if applied.len() > 0 {
        lemma_override_keeps_profiles_distinct(overrides, applied[0]);
        lemma_overrides_keep_profiles_distinct(
            with_override(overrides, applied[0]),
            applied.drop_first(),
        );
    }
}

/// Editing a stream keeps a schedule well formed, whatever overrides are
/// taken in.
pub proof fn law_edit_keeps_well_formed(
    configs: Seq<StreamConfigView>,
    name: Seq<char>,
    applied: Seq<(Seq<char>, u16)>,
)
    requires
        well_formed(configs),
    ensures
        well_formed(with_edit(configs, name, applied)),
{
    let at = position_of(configs, name);
    let after = with_edit(configs, name, applied);
    if at < configs.len() {
        lemma_first_index(configs, |config: StreamConfigView| config.name == name);
        lemma_overrides_keep_profiles_distinct(configs[at].quality_overides, applied);
        assert forall|i: int, j: int| 0 <= i < j < after.len() implies (#[trigger] after[i]).name
            != (#[trigger] after[j]).name by {
            assert(after[i].name == configs[i].name);
            assert(after[j].name == configs[j].name);
        }
        assert forall|i: int| 0 <= i < after.len() implies distinct_profiles(
            (#[trigger] after[i]).quality_overides,
        ) by {
            if i != at {
                assert(after[i] == configs[i]);
            }
        }
    }
}

/// Removing a stream keeps a schedule well formed.
pub proof fn law_remove_keeps_well_formed(configs: Seq<StreamConfigView>, at: int)
    requires
        well_formed(configs),
        0 <= at < configs.len(),
    ensures
        well_formed(configs.remove(at)),
{
    let after = configs.remove(at);
    assert forall|i: int, j: int| 0 <= i < j < after.len() implies (#[trigger] after[i]).name != (
    #[trigger] after[j]).name by {
        let from_i = if i < at {
            i
        } else {
            i + 1
        };
        let from_j = if j < at {
            j
        } else {
            j + 1
        };
        assert(after[i] == configs[from_i]);
        assert(after[j] == configs[from_j]);
    }
    assert forall|i: int| 0 <= i < after.len() implies distinct_profiles(
        (#[trigger] after[i]).quality_overides,
    ) by {
        let from_i = if i < at {
            i
        } else {
            i + 1
        };
        assert(after[i] == configs[from_i]);
    }
}

/// Adding a stream keeps a schedule well formed where no stream has the name
/// yet and no two of the new overrides are of the same profile.
pub proof fn law_add_keeps_well_formed(
    configs: Seq<StreamConfigView>,
    name: Seq<char>,
    id: u32,
    overrides: Seq<(Seq<char>, u16)>,
)
    requires
        well_formed(configs),
        position_of(configs, name) == configs.len(),
        distinct_profiles(overrides),
    ensures
        well_formed(configs.push(new_config(name, id, overrides))),
{
    let named = |config: StreamConfigView| config.name == name;
    lemma_first_index(configs, named);
    let after = configs.push(new_config(name, id, overrides));
    assert forall|i: int, j: int| 0 <= i < j < after.len() implies (#[trigger] after[i]).name != (
    #[trigger] after[j]).name by {
        if j == configs.len() {
            assert(!named(configs[i]));
        } else {
            assert(after[i] == configs[i]);
            assert(after[j] == configs[j]);
        }
    }
    assert forall|i: int| 0 <= i < after.len() implies distinct_profiles(
        (#[trigger] after[i]).quality_overides,
    ) by {
        if i < configs.len() {
            assert(after[i] == configs[i]);
        }
    }
}

/// Why a stream was not added to the schedule.
#[derive(Clone, Copy, Debug, PartialEq, Eq, Structural)]
pub enum AddError {
    /// The id that the search gives for the broadcaster is no number that
    /// fits thirty-two bits.
    Id(NumberError),
    /// An override could not be read.
    Override(OverrideError),
}

/// How adding a stream ended.
#[derive(Clone, Copy, Debug, PartialEq, Eq, Structural)]
pub enum Added {
    /// The stream is in the schedule now.
    Added,
    /// The search did not return the broadcaster; nothing was added.
    NotFound,
}

/// The id to store for the broadcaster `name`, given what the search has
/// answered (`None`: it did not answer 200).
///
/// Without an answer the id is 0. With one, the id is that of the first
/// channel with exactly the login `name`; `Ok(None)` where there is no such
/// channel.
pub open spec fn id_from_search(search: Option<Seq<SearchDataView>>, name: Seq<char>) -> Result<
    Option<u32>,
    NumberError,
> {
    match search {
        None => Ok(Some(0u32)),
        Some(channels) => {
            let at = channel_of(channels, name);
            if at == channels.len() {
                Ok(None)
            } else {
                match parse_unsigned(channels[at].id, 0xffff_ffff) {
                    Ok(id) => Ok(Some(id as u32)),
                    Err(error) => Err(error),
                }
            }
        },
    }
}

/// The overrides that are given as texts, none where no texts are given.
pub open spec fn overrides_from(texts: Option<Seq<Seq<char>>>) -> Result<
    Seq<(Seq<char>, u16)>,
    OverrideError,
> {
    match texts {
        None => Ok(Seq::empty()),
        Some(texts) => parse_overrides_spec(texts),
    }
}

/// The config of a stream that has just been added.
pub open spec fn new_config(name: Seq<char>, id: u32, overrides: Seq<(Seq<char>, u16)>)
    -> StreamConfigView {
    StreamConfigView {
        name: name,
        id: id,
        quality_overides: overrides,
        streams_to_close_on: Seq::empty(),
        streams_to_open_on: Seq::empty(),
    }
}

/// The schedule and the result after an attempt to add the stream `name`.
pub open spec fn with_added(
    configs: Seq<StreamConfigView>,
    name: Seq<char>,
    texts: Option<Seq<Seq<char>>>,
    search: Option<Seq<SearchDataView>>,
) -> (Seq<StreamConfigView>, Result<Added, AddError>) {
    match id_from_search(search, name) {
        Err(error) => (configs, Err(AddError::Id(error))),
        Ok(None) => (configs, Ok(Added::NotFound)),
        Ok(Some(id)) => match overrides_from(texts) {
            Err(error) => (configs, Err(AddError::Override(error))),
            Ok(overrides) => (configs.push(new_config(name, id, overrides)), Ok(Added::Added)),
        },
    }
}

/// The line that shows one override.
pub open spec fn override_line(held: (Seq<char>, u16)) -> Seq<char> {
    "    "@ + held.0 + " : "@ + decimal_digits(held.1 as nat) + "\n"@
}

/// The line that shows one login.
pub open spec fn login_line(login: Seq<char>) -> Seq<char> {
    "    "@ + login + "\n"@
}

/// The lines that show `overrides`, one after the other.
pub open spec fn override_lines(overrides: Seq<(Seq<char>, u16)>) -> Seq<char>
    decreases overrides.len(),
{
    if overrides.len() == 0 {
        Seq::empty()
    } else {
        override_lines(overrides.drop_last()) + override_line(overrides.last())
    }
}

/// The lines that show `logins`, one after the other.
pub open spec fn login_lines(logins: Seq<Seq<char>>) -> Seq<char>
    decreases logins.len(),
{
    if logins.len() == 0 {
        Seq::empty()
    } else {
        login_lines(logins.drop_last()) + login_line(logins.last())
    }
}

/// The text that shows a config: its name, then its overrides, then the
/// streams to close on and the streams to open on.
pub open spec fn config_text(config: StreamConfigView) -> Seq<char> {
    config.name + ":\n  profile quality:\n"@ + override_lines(config.quality_overides)
        + "  streams to close on:\n"@ + login_lines(config.streams_to_close_on)
        + "  streams to open on:\n"@ + login_lines(config.streams_to_open_on)
}

/// The text that shows a schedule: the texts of its configs one after the
/// other.
pub open spec fn schedule_text(configs: Seq<StreamConfigView>) -> Seq<char>
    decreases configs.len(),
{
    if configs.len() == 0 {
        Seq::empty()
    } else {
        schedule_text(configs.drop_last()) + config_text(configs.last())
    }
}

/// Appends the lines that show `logins` to `text`.
fn append_login_lines(text: &mut String, logins: &Vec<String>)
    ensures
        final(text)@ == old(text)@ + login_lines(logins.deep_view()),
{
    let ghost all = logins.deep_view();
    let mut at: usize = 0;
    assert(all.take(0) =~= Seq::<Seq<char>>::empty());
    while at < logins.len()
        invariant
            at <= logins.len(),
            all == logins.deep_view(),
            text@ == old(text)@ + login_lines(all.take(at as int)),
        decreases logins.len() - at,
    {
        let ghost shown = all.take(at as int);
        let ghost more = all.take(at as int + 1);
        let ghost before = text@;
        assert(more.drop_last() =~= shown);
        assert(more.last() == logins[at as int]@);
        text.append("    ");
        text.append(logins[at].as_str());
        text.append("\n");
        assert(text@ =~= before + login_line(logins[at as int]@));
        assert(text@ =~= old(text)@ + login_lines(more));
        at += 1;
    }
    assert(all.take(at as int) =~= all);
}

impl StreamConfig {
    /// The text that shows the config.
    pub fn to_text(&self) -> (text: String)
        ensures
            text@ == config_text(self@),
    {
        let mut text = self.name.clone();
        text.append(":\n  profile quality:\n");
        let ghost head = text@;
        let ghost all = self.quality_overides.deep_view();
        let mut at: usize = 0;
        assert(all.take(0) =~= Seq::<(Seq<char>, u16)>::empty());
        while at < self.quality_overides.len()
            invariant
                at <= self.quality_overides.len(),
                all == self.quality_overides.deep_view(),
                text@ == head + override_lines(all.take(at as int)),
            decreases self.quality_overides.len() - at,
        {
            let ghost shown = all.take(at as int);
            let ghost more = all.take(at as int + 1);
            let ghost before = text@;
            let held = &self.quality_overides[at];
            assert(more.drop_last() =~= shown);
            assert(more.last() == (held.0@, held.1));
            text.append("    ");
            text.append(held.0.as_str());
            text.append(" : ");
            text.append(decimal(held.1 as u64).as_str());
            text.append("\n");
            assert(text@ =~= before + override_line((held.0@, held.1)));
            assert(text@ =~= head + override_lines(more));
            at += 1;
        }
        assert(all.take(at as int) =~= all);
        text.append("  streams to close on:\n");
        append_login_lines(&mut text, &self.streams_to_close_on);
        text.append("  streams to open on:\n");
        append_login_lines(&mut text, &self.streams_to_open_on);
        assert(text@ =~= config_text(self@));
        text
    }
}

/// Reads one override of the form `profile,quality`.
pub fn parse_override(text: &str) -> (parsed: Result<(String, u16), OverrideError>)
    ensures
        parsed is Ok <==> parse_override_spec(text@) is Ok,
        parsed matches Ok(taken) ==> parse_override_spec(text@) == Ok::<
            (Seq<char>, u16),
            OverrideError,
        >((taken.0@, taken.1)),
        parsed matches Err(error) ==> parse_override_spec(text@) == Err::<
            (Seq<char>, u16),
            OverrideError,
        >(error),
{
    let quality = match nth_field(text, ',', 1) {
        None => {
            return Err(OverrideError::MissingQuality);
        },
        Some(quality) => quality,
    };
    let value: u16 = match parse_u16(quality.as_str()) {
        Err(error) => {
            return Err(OverrideError::Quality(error));
        },
        Ok(value) => value,
    };
    match nth_field(text, ',', 0) {
        Some(profile) => Ok((profile, value)),
        None => Err(OverrideError::MissingQuality),
    }
}

/// Reads every override of `texts`, stopping at the first that cannot be read.
pub fn parse_overrides(texts: &Vec<String>) -> (parsed: Result<Vec<(String, u16)>, OverrideError>)
    ensures
        parsed is Ok <==> parse_overrides_spec(texts.deep_view()) is Ok,
        parsed matches Ok(taken) ==> parse_overrides_spec(texts.deep_view()) == Ok::<
            Seq<(Seq<char>, u16)>,
            OverrideError,
        >(taken.deep_view()),
        parsed matches Err(error) ==> parse_overrides_spec(texts.deep_view()) == Err::<
            Seq<(Seq<char>, u16)>,
            OverrideError,
        >(error),
{
    let ghost all = texts.deep_view();
    let ghost bad = |text: Seq<char>| is_bad_override(text);
    let mut taken: Vec<(String, u16)> = Vec::new();
    let mut at: usize = 0;
    while at < texts.len()
        invariant
            all == texts.deep_view(),
            bad == (|text: Seq<char>| is_bad_override(text)),
            at <= texts.len(),
            taken.len() == at,
            forall|i: int| 0 <= i < at ==> !is_bad_override(#[trigger] all[i]),
            forall|i: int|
                0 <= i < at ==> (#[trigger] taken[i]).0@ == parse_override_spec(all[i])->Ok_0.0
                    && taken[i].1 == parse_override_spec(all[i])->Ok_0.1,
        decreases texts.len() - at,
    {
        assert(all[at as int] == texts[at as int]@);
        match parse_override(texts[at].as_str()) {
            Err(error) => {
                proof {
                    assert(bad(all[at as int]));
                    assert forall|i: int| 0 <= i < at implies !bad(#[trigger] all[i]) by {
                        assert(!is_bad_override(all[i]));
                    }
                    lemma_first_index_is(all, bad, at as int);
                }
                return Err(error);
            },
            Ok(pair) => {
                taken.push(pair);
            },
        }
        at += 1;
    }
    proof {
        assert forall|i: int| 0 <= i < all.len() implies !bad(#[trigger] all[i]) by {
            assert(!is_bad_override(all[i]));
        }
        lemma_first_index_is(all, bad, all.len() as int);
        let wanted = all.map_values(|text: Seq<char>| parse_override_spec(text)->Ok_0);
        assert(taken.deep_view() =~= wanted) by {
            assert forall|i: int| 0 <= i < wanted.len() implies taken.deep_view()[i]
                == wanted[i] by {
                assert(taken.deep_view()[i] == (taken[i].0@, taken[i].1));
            }
        }
    }
    Ok(taken)
}

/// Takes `applied` into `overrides`: it replaces the first override of the
/// same profile, or is added at the end.
pub fn apply_override(overrides: &mut Vec<(String, u16)>, applied: (String, u16))
    ensures
        final(overrides).deep_view() == with_override(
            old(overrides).deep_view(),
            (applied.0@, applied.1),
        ),
{
    let ghost before = overrides.deep_view();
    let ghost taken = (applied.0@, applied.1);
    let mut at: usize = 0;
    while at < overrides.len()
        invariant
            at <= overrides.len(),
            before == overrides.deep_view(),
            before == old(overrides).deep_view(),
            taken == (applied.0@, applied.1),
            forall|i: int| 0 <= i < at ==> (#[trigger] before[i]).0 != applied.0@,
        decreases overrides.len() - at,
    {
        assert(before[at as int] == (overrides[at as int].0@, overrides[at as int].1));
        if overrides[at].0 == applied.0 {
            proof {
                let same = |held: (Seq<char>, u16)| held.0 == taken.0;
                assert(same(before[at as int]));
                assert forall|i: int| 0 <= i < at implies !same(#[trigger] before[i]) by {}
                lemma_first_index_is(before, same, at as int);
            }
            overrides.set(at, applied);
            assert(overrides.deep_view() =~= before.update(at as int, taken));
            return ;
        }
        at += 1;
    }
    proof {
        let same = |held: (Seq<char>, u16)| held.0 == taken.0;
        assert forall|i: int| 0 <= i < before.len() implies !same(#[trigger] before[i]) by {}
        lemma_first_index_is(before, same, before.len() as int);
    }
    overrides.push(applied);
    assert(overrides.deep_view() =~= before.push(taken));
}

/// Whether no two of `overrides` are of the same profile.
pub fn profiles_are_distinct(overrides: &Vec<(String, u16)>) -> (distinct: bool)
    ensures
        distinct == distinct_profiles(overrides.deep_view()),
{
    let ghost held = overrides.deep_view();
    let mut later: usize = 0;
    while later < overrides.len()
        invariant
            later <= overrides.len(),
            held == overrides.deep_view(),
            forall|i: int, j: int|
                0 <= i < j < later ==> (#[trigger] held[i]).0 != (#[trigger] held[j]).0,
        decreases overrides.len() - later,
    {
        let mut earlier: usize = 0;
        while earlier < later
            invariant
                earlier <= later < overrides.len(),
                held == overrides.deep_view(),
                forall|i: int| 0 <= i < earlier ==> (#[trigger] held[i]).0 != held[later as int].0,
            decreases later - earlier,
        {
            assert(held[earlier as int] == (overrides[earlier as int].0@, overrides[earlier as int].1));
            assert(held[later as int] == (overrides[later as int].0@, overrides[later as int].1));
            if overrides[earlier].0 == overrides[later].0 {
                assert(held[earlier as int].0 == held[later as int].0);
                return false;
            }
            earlier += 1;
        }
        later += 1;
    }
    true
}

/// Contains settings for the twitch streams to watch.
#[derive(Debug)]
pub struct Streams {
    streams: Vec<StreamConfig>,
}

impl View for Streams {
    type V = Seq<StreamConfigView>;

    closed spec fn view(&self) -> Seq<StreamConfigView> {
        self.streams.deep_view()
    }
}

impl Clone for Streams {
    /// A copy that holds the same streams in the same order.
    fn clone(&self) -> (copy: Self)
        ensures
            copy@ == self@,
    {
        let mut streams: Vec<StreamConfig> = Vec::new();
        let mut at: usize = 0;
        while at < self.streams.len()
            invariant
                at <= self.streams.len(),
                streams.len() == at,
                forall|i: int| 0 <= i < at ==> (#[trigger] streams[i])@ == self.streams[i]@,
            decreases self.streams.len() - at,
        {
            streams.push(self.streams[at].clone());
            at += 1;
        }
        let copy = Streams { streams };
        assert(copy@ =~= self@);
        copy
    }
}

impl Default for Streams {
    /// The empty schedule.
    fn default() -> (streams: Self)
        ensures
            streams@ == Seq::<StreamConfigView>::empty(),
    {
        Streams::new()
    }
}

impl Streams {
    /// Create new empty stream settings.
    #[must_use]
    pub fn new() -> (streams: Self)
        ensures
            streams@ == Seq::<StreamConfigView>::empty(),
    {
        let streams = Streams { streams: Vec::new() };
        assert(streams@ =~= Seq::<StreamConfigView>::empty());
        streams
    }

    /// The schedule that holds `configs`, in their order. The configs are
    /// taken as they are given: [`Streams::is_well_formed`] says whether
    /// they make a schedule without doubles.
    pub fn from_configs(configs: Vec<StreamConfig>) -> (streams: Self)
        ensures
            streams@ == configs.deep_view(),
    {
        Streams { streams: configs }
    }

    /// The configs of the schedule, in their order.
    pub fn configs(&self) -> (configs: &Vec<StreamConfig>)
        ensures
            configs.deep_view() == self@,
    {
        &self.streams
    }

    /// How many streams the schedule holds.
    pub fn len(&self) -> (len: usize)
        ensures
            len == self@.len(),
    {
        self.streams.len()
    }

    /// The stream at position `at`.
    pub fn get(&self, at: usize) -> (config: Option<&StreamConfig>)
        ensures
            config.is_some() == (at < self@.len()),
            config matches Some(found) ==> found@ == self@[at as int],
    {
        if at < self.streams.len() {
            Some(&self.streams[at])
        } else {
            None
        }
    }

    /// Whether the schedule is as it should be: no two streams have the same
    /// name, and no stream has two overrides of the same profile.
    pub fn is_well_formed(&self) -> (good: bool)
        ensures
            good == well_formed(self@),
    {
        let ghost configs = self@;
        let mut later: usize = 0;
        while later < self.streams.len()
            invariant
                later <= self.streams.len(),
                configs == self@,
                forall|i: int, j: int|
                    0 <= i < j < later ==> (#[trigger] configs[i]).name != (
                    #[trigger] configs[j]).name,
                forall|i: int|
                    0 <= i < later ==> distinct_profiles((#[trigger] configs[i]).quality_overides),
            decreases self.streams.len() - later,
        {
            assert(configs[later as int] == self.streams[later as int]@);
            if !profiles_are_distinct(&self.streams[later].quality_overides) {
                assert(!distinct_profiles(configs[later as int].quality_overides));
                return false;
            }
            let mut earlier: usize = 0;
            while earlier < later
                invariant
                    earlier <= later < self.streams.len(),
                    configs == self@,
                    forall|i: int|
                        0 <= i < earlier ==> (#[trigger] configs[i]).name != configs[later as int].name,
                decreases later - earlier,
            {
                assert(configs[earlier as int] == self.streams[earlier as int]@);
                assert(configs[later as int] == self.streams[later as int]@);
                if self.streams[earlier].name == self.streams[later].name {
                    assert(configs[earlier as int].name == configs[later as int].name);
                    return false;
                }
                earlier += 1;
            }
            later += 1;
        }
        true
    }

    /// The position of the first stream named `name`, or the number of
    /// streams where none is.
    fn position(&self, name: &str) -> (at: usize)
        ensures
            at == position_of(self@, name@),
            at <= self.streams.len(),
    {
        let wanted: String = String::from_str(name);
        let mut at: usize = 0;
        while at < self.streams.len()
            invariant
                at <= self.streams.len(),
                wanted@ == name@,
                forall|i: int| 0 <= i < at ==> (#[trigger] self@[i]).name != name@,
            decreases self.streams.len() - at,
        {
            assert(self@[at as int] == self.streams[at as int]@);
            if self.streams[at].name == wanted {
                proof {
                    let named = |config: StreamConfigView| config.name == name@;
                    assert forall|i: int| 0 <= i < at implies !named(#[trigger] self@[i]) by {}
                    lemma_first_index_is(self@, named, at as int);
                }
                return at;
            }
            at += 1;
        }
        proof {
            let named = |config: StreamConfigView| config.name == name@;
            assert forall|i: int| 0 <= i < at implies !named(#[trigger] self@[i]) by {}
            lemma_first_index_is(self@, named, at as int);
        }
        at
    }

    /// The text that shows the schedule: the texts of its streams one after
    /// the other.
    pub fn to_text(&self) -> (text: String)
        ensures
            text@ == schedule_text(self@),
    {
        let mut text = String::new();
        let mut at: usize = 0;
        assert(self@.take(0) =~= Seq::<StreamConfigView>::empty());
        while at < self.streams.len()
            invariant
                at <= self.streams.len(),
                text@ == schedule_text(self@.take(at as int)),
            decreases self.streams.len() - at,
        {
            let ghost more = self@.take(at as int + 1);
            assert(more.drop_last() =~= self@.take(at as int));
            assert(more.last() == self.streams[at as int]@);
            text.append(self.streams[at].to_text().as_str());
            at += 1;
        }
        assert(self@.take(at as int) =~= self@);
        text
    }

    /// Add a new streamer to the schedule.
    ///
    /// `search` is what the channel search has answered for `name`, or
    /// `None` where it did not answer 200: the stream is then added with the
    /// id 0. Where the search has answered without the broadcaster, nothing
    /// is added. The overrides are read as in [`Streams::edit_stream`]. The
    /// new stream goes to the end of the schedule, with nothing to close or
    /// to open on.
    pub fn add_stream(
        &mut self,
        name: &str,
        quality_overides: &Option<Vec<String>>,
        search: Option<&StreamSearch>,
    ) -> (result: Result<Added, AddError>)
        ensures
            (final(self)@, result) == with_added(
                old(self)@,
                name@,
                match quality_overides {
                    Some(texts) => Some(texts.deep_view()),
                    None => None,
                },
                match search {
                    Some(answer) => Some(answer@),
                    None => None,
                },
            ),
            well_formed(old(self)@) && position_of(old(self)@, name@) == old(self)@.len() && (
            quality_overides matches Some(texts) ==> parse_overrides_spec(texts.deep_view())
                matches Ok(overrides) ==> distinct_profiles(overrides)) ==> well_formed(
                final(self)@,
            ),
    {
        let id: u32 = match search {
            None => 0,
            Some(answer) => match answer.channel(name) {
                None => {
                    return Ok(Added::NotFound);
                },
                Some(channel) => match parse_u32(channel.id.as_str()) {
                    Ok(id) => id,
                    Err(error) => {
                        return Err(AddError::Id(error));
                    },
                },
            },
        };
        let overrides: Vec<(String, u16)> = match quality_overides {
            None => Vec::new(),
            Some(texts) => match parse_overrides(texts) {
                Ok(overrides) => overrides,
                Err(error) => {
                    return Err(AddError::Override(error));
                },
            },
        };
        let config = StreamConfig {
            name: String::from_str(name),
            id,
            quality_overides: overrides,
            streams_to_close_on: Vec::new(),
            streams_to_open_on: Vec::new(),
        };
        assert(config@ =~= new_config(name@, id, overrides.deep_view())) by {
            assert(config@.streams_to_close_on =~= Seq::<Seq<char>>::empty());
            assert(config@.streams_to_open_on =~= Seq::<Seq<char>>::empty());
        }
        assert(overrides.deep_view() =~= overrides_from(
            match quality_overides {
                Some(texts) => Some(texts.deep_view()),
                None => None,
            },
        )->Ok_0);
        self.streams.push(config);
        assert(self@ =~= old(self)@.push(config@));
        proof {
            if well_formed(old(self)@) && position_of(old(self)@, name@) == old(self)@.len()
                && distinct_profiles(overrides.deep_view()) {
                law_add_keeps_well_formed(old(self)@, name@, id, overrides.deep_view());
            }
        }
        Ok(Added::Added)
    }

    /// Edit the settings of a certain stream: each override of the form
    /// `profile,quality` replaces the stream's override of that profile, or is
    /// added to the stream's overrides.
    ///
    /// Nothing changes where an override cannot be read, where no stream is
    /// named `name`, or where no overrides are given.
    pub fn edit_stream(&mut self, name: &str, quality_overides: &Option<Vec<String>>) -> (result:
        Result<(), OverrideError>)
        ensures
            match quality_overides {
                None => result is Ok && final(self)@ == old(self)@,
                Some(texts) => match parse_overrides_spec(texts.deep_view()) {
                    Err(error) => result == Err::<(), OverrideError>(error) && final(self)@ == old(
                        self,
                    )@,
                    Ok(applied) => result is Ok && final(self)@ == with_edit(
                        old(self)@,
                        name@,
                        applied,
                    ),
                },
            },
            well_formed(old(self)@) ==> well_formed(final(self)@),
    {
        proof {
            if let Some(texts) = quality_overides {
                if let Ok(applied) = parse_overrides_spec(texts.deep_view()) {
                    if well_formed(old(self)@) {
                        law_edit_keeps_well_formed(old(self)@, name@, applied);
                    }
                }
            }
        }
        let texts = match quality_overides {
            None => {
                return Ok(());
            },
            Some(texts) => texts,
        };
        let applied = match parse_overrides(texts) {
            Err(error) => {
                return Err(error);
            },
            Ok(applied) => applied,
        };
        let at: usize = self.position(name);
        if at < self.streams.len() {
            let ghost before = self@;
            let ghost all = applied.deep_view();
            let mut config = self.streams.remove(at);
            assert(config@ == before[at as int]);
            let count: usize = applied.len();
            let mut done: usize = 0;
            assert(all.skip(0) =~= all);
            while done < count
                invariant
                    done <= count,
                    count == applied.len(),
                    all == applied.deep_view(),
                    at < before.len(),
                    with_overrides(config.quality_overides.deep_view(), all.skip(done as int))
                        == with_overrides(before[at as int].quality_overides, all),
                    config.name@ == before[at as int].name,
                    config.id == before[at as int].id,
                    config.streams_to_close_on.deep_view() == before[at as int].streams_to_close_on,
                    config.streams_to_open_on.deep_view() == before[at as int].streams_to_open_on,
                decreases count - done,
            {
                let ghost rest = all.skip(done as int);
                let next: (String, u16) = (applied[done].0.clone(), applied[done].1);
                assert(rest[0] == (next.0@, next.1));
                assert(rest.drop_first() =~= all.skip(done as int + 1));
                apply_override(&mut config.quality_overides, next);
                done += 1;
            }
            assert(all.skip(count as int).len() == 0);
            self.streams.insert(at, config);
            assert(self@ =~= with_edit(before, name@, all)) by {
                let after = with_edit(before, name@, all);
                assert(self.streams@ =~= old(self).streams@.remove(at as int).insert(
                    at as int,
                    config,
                ));
                assert forall|i: int| 0 <= i < after.len() implies self@[i] == after[i] by {
                    if i == at {
                        assert(self@[i] == config@);
                    } else {
                        assert(self.streams@[i] == old(self).streams@[i]);
                        assert(before[i] == old(self).streams@[i]@);
                    }
                }
            }
        }
        Ok(())
    }

    /// Remove a stream: the first one named `name` leaves the schedule and is
    /// returned. Where no stream has that name, nothing changes.
    pub fn remove_stream(&mut self, name: &str) -> (removed: Option<StreamConfig>)
        ensures
            match removed {
                Some(config) => {
                    &&& position_of(old(self)@, name@) < old(self)@.len()
                    &&& config@ == old(self)@[position_of(old(self)@, name@)]
                    &&& final(self)@ == old(self)@.remove(position_of(old(self)@, name@))
                },
                None => {
                    &&& position_of(old(self)@, name@) == old(self)@.len()
                    &&& final(self)@ == old(self)@
                },
            },
            well_formed(old(self)@) ==> well_formed(final(self)@),
    {
        proof {
            lemma_first_index(old(self)@, |config: StreamConfigView| config.name == name@);
            if well_formed(old(self)@) && position_of(old(self)@, name@) < old(self)@.len() {
                law_remove_keeps_well_formed(old(self)@, position_of(old(self)@, name@));
            }
        }
        let at: usize = self.position(name);
        if at < self.streams.len() {
            let ghost before = self@;
            let config = self.streams.remove(at);
            assert(config@ == before[at as int]);
            assert(self@ =~= before.remove(at as int)) by {
                assert forall|i: int| 0 <= i < self@.len() implies self@[i] == before.remove(
                    at as int,
                )[i] by {
                    if i < at {
                        assert(self.streams@[i] == old(self).streams@[i]);
                    } else {
                        assert(self.streams@[i] == old(self).streams@[i + 1]);
                    }
                }
            }
            Some(config)
        } else {
            None
        }
    }
}

/// Twitch oauth2 token settings, as they are stored.
#[derive(Debug)]
pub struct UserData {
    pub access_token: String,
    pub login: String,
    pub user_id: String,
}

} // verus!
