//! The event handler: it keeps the table of stream configs and turns every
//! event that says a broadcaster is live into one play request.

use crate::cave::{position_of, StreamConfig, StreamConfigView};
use crate::lookup::{first_index, lemma_first_index_is};
use vstd::prelude::*;
use vstd::string::*;

verus! {

/// The quality of the first override in `overrides` that is of the profile
/// `profile.0`, or `profile.1` where there is none.
pub open spec fn override_or(overrides: Seq<(Seq<char>, u16)>, profile: (Seq<char>, u16)) -> u16 {
    let at = first_index(overrides, |held: (Seq<char>, u16)| held.0 == profile.0);
    if at < overrides.len() {
        overrides[at].1
    } else {
        profile.1
    }
}

/// The quality at which the stream of `login` is played: what the first
/// config of that name overrides the global profile with, or the quality of
/// the global profile where no config has that name or it does not override
/// the profile.
pub open spec fn quality_for(
    configs: Seq<StreamConfigView>,
    login: Seq<char>,
    profile: (Seq<char>, u16),
) -> u16 {
    let at = position_of(configs, login);
    if at < configs.len() {
        override_or(configs[at].quality_overides, profile)
    } else {
        profile.1
    }
}

/// What reaches the event handler.
#[derive(Debug)]
pub enum EventInput {
    /// A config from the schedule.
    Config(StreamConfig),
    /// A pair of a tag and a login from the WebSocket: the broadcaster went
    /// live.
    Socket((String, String)),
    /// A pair of a tag and a login from the exit handler: the stream is to be
    /// played again.
    Exit((String, String)),
}

/// The table after `input` has been taken in: a config is appended, and
/// nothing else changes the table.
pub open spec fn table_after(table: Seq<StreamConfigView>, input: EventInput) -> Seq<
    StreamConfigView,
> {
    match input {
        EventInput::Config(config) => table.push(config@),
        _ => table,
    }
}

/// The play request that `input` leads to: one for every pair from the
/// WebSocket or the exit handler, none for a config.
pub open spec fn request_for(
    table: Seq<StreamConfigView>,
    input: EventInput,
    profile: (Seq<char>, u16),
) -> Option<(Seq<char>, u16)> {
    match input {
        EventInput::Config(_) => None,
        EventInput::Socket(stream) => Some((stream.1@, quality_for(table, stream.1@, profile))),
        EventInput::Exit(stream) => Some((stream.1@, quality_for(table, stream.1@, profile))),
    }
}

/// The table of stream configs, in the order in which they came.
#[derive(Debug)]
pub struct EventHandler {
    configs: Vec<StreamConfig>,
}

impl View for EventHandler {
    type V = Seq<StreamConfigView>;

    closed spec fn view(&self) -> Seq<StreamConfigView> {
        self.configs.deep_view()
    }
}

impl EventHandler {
    /// An event handler with an empty table.
    pub fn new() -> (handler: Self)
        ensures
            handler@ == Seq::<StreamConfigView>::empty(),
    {
        let handler = EventHandler { configs: Vec::new() };
        assert(handler@ =~= Seq::<StreamConfigView>::empty());
        handler
    }

    /// How many configs the table holds.
    pub fn len(&self) -> (len: usize)
        ensures
            len == self@.len(),
    {
        self.configs.len()
    }

    /// Appends `config` to the table.
    pub fn add_config(&mut self, config: StreamConfig)
        ensures
            final(self)@ == old(self)@.push(config@),
    {
        self.configs.push(config);
        assert(self@ =~= old(self)@.push(config@));
    }

    /// The play request for an event `(tag, login)`: the login, and the
    /// quality that the table and the global profile give for it. The tag is
    /// not looked at, and a login that the table does not hold is played at
    /// the quality of the global profile.
    pub fn handle_event(&self, stream: (String, String), global_profile: &(String, u16)) -> (task: (
        String,
        u16,
    ))
        ensures
            task.0@ == stream.1@,
            task.1 == quality_for(self@, stream.1@, (global_profile.0@, global_profile.1)),
    {
        let ghost table = self@;
        let ghost login = stream.1@;
        let ghost profile = (global_profile.0@, global_profile.1);
        let mut at: usize = 0;
        while at < self.configs.len()
            invariant
                at <= self.configs.len(),
                table == self@,
                login == stream.1@,
                profile == (global_profile.0@, global_profile.1),
                forall|i: int| 0 <= i < at ==> (#[trigger] table[i]).name != login,
            decreases self.configs.len() - at,
        {
            assert(table[at as int] == self.configs[at as int]@);
            if self.configs[at].name == stream.1 {
                proof {
                    let named = |config: StreamConfigView| config.name == login;
                    assert forall|i: int| 0 <= i < at implies !named(#[trigger] table[i]) by {}
                    lemma_first_index_is(table, named, at as int);
                }
                let quality: u16 = profile_quality(
                    &self.configs[at].quality_overides,
                    global_profile,
                );
                return (stream.1, quality);
            }
            at += 1;
        }
        proof {
            let named = |config: StreamConfigView| config.name == login;
            assert forall|i: int| 0 <= i < at implies !named(#[trigger] table[i]) by {}
            lemma_first_index_is(table, named, at as int);
        }
        (stream.1, global_profile.1)
    }

    /// Takes in one input. A config is appended to the table and leads to no
    /// play request. A pair from the WebSocket or from the exit handler leaves
    /// the table as it is and leads to exactly one play request.
    pub fn step(&mut self, input: EventInput, global_profile: &(String, u16)) -> (task: Option<
        (String, u16),
    >)
        ensures
            final(self)@ == table_after(old(self)@, input),
            task.is_some() == !(input is Config),
            match task {
                Some(request) => Some((request.0@, request.1)) == request_for(
                    old(self)@,
                    input,
                    (global_profile.0@, global_profile.1),
                ),
                None => request_for(old(self)@, input, (global_profile.0@, global_profile.1))
                    is None,
            },
    {
        match input {
            EventInput::Config(config) => {
                self.add_config(config);
                None
            },
            EventInput::Socket(stream) => Some(self.handle_event(stream, global_profile)),
            EventInput::Exit(stream) => Some(self.handle_event(stream, global_profile)),
        }
    }
}

/// The quality of the first of `overrides` that is of the global profile, or
/// the quality of the global profile where none is.
pub fn profile_quality(overrides: &Vec<(String, u16)>, global_profile: &(String, u16)) -> (quality:
    u16)
    ensures
        quality == override_or(overrides.deep_view(), (global_profile.0@, global_profile.1)),
{
    let ghost held = overrides.deep_view();
    let ghost profile = (global_profile.0@, global_profile.1);
    let mut at: usize = 0;
    while at < overrides.len()
        invariant
            at <= overrides.len(),
            held == overrides.deep_view(),
            profile == (global_profile.0@, global_profile.1),
            forall|i: int| 0 <= i < at ==> (#[trigger] held[i]).0 != profile.0,
        decreases overrides.len() - at,
    {
        assert(held[at as int] == (overrides[at as int].0@, overrides[at as int].1));
        if overrides[at].0 == global_profile.0 {
            proof {
                let same = |pair: (Seq<char>, u16)| pair.0 == profile.0;
                assert forall|i: int| 0 <= i < at implies !same(#[trigger] held[i]) by {}
                lemma_first_index_is(held, same, at as int);
            }
            return overrides[at].1;
        }
        at += 1;
    }
    proof {
        let same = |pair: (Seq<char>, u16)| pair.0 == profile.0;
        assert forall|i: int| 0 <= i < at implies !same(#[trigger] held[i]) by {}
        lemma_first_index_is(held, same, at as int);
    }
    global_profile.1
}

} // verus!
