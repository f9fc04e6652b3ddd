//! The scheduler loader: it seeds the other actors from the schedule.

use crate::cave::{StreamConfig, StreamConfigView, Streams};
use vstd::prelude::*;

verus! {

/// One message of the loader.
#[derive(Debug, PartialEq, Eq)]
pub enum Seed {
    /// For the WebSocket session: the id of a broadcaster to subscribe to.
    BroadcasterId(u32),
    /// For the event handler: the config of a broadcaster.
    Config(StreamConfig),
}

/// A [`Seed`] as a plain mathematical value.
pub enum SeedView {
    BroadcasterId(u32),
    Config(StreamConfigView),
}

impl DeepView for Seed {
    type V = SeedView;

    open spec fn deep_view(&self) -> SeedView {
        match self {
            Seed::BroadcasterId(id) => SeedView::BroadcasterId(*id),
            Seed::Config(config) => SeedView::Config(config@),
        }
    }
}

impl View for Seed {
    type V = SeedView;

    open spec fn view(&self) -> SeedView {
        self.deep_view()
    }
}

/// What the loader sends for `schedule`, in order: for each config, in the
/// order of the schedule, first its broadcaster id and then the config.
pub open spec fn seeds_of(schedule: Seq<StreamConfigView>) -> Seq<SeedView> {
    Seq::new(
        2 * schedule.len(),
        |i: int|
            if i % 2 == 0 {
                SeedView::BroadcasterId(schedule[i / 2].id)
            } else {
                SeedView::Config(schedule[i / 2])
            },
    )
}

/// The broadcaster ids that go to the WebSocket session, in order: the set
/// of subscriptions that a group of actors makes.
pub open spec fn broadcaster_ids(schedule: Seq<StreamConfigView>) -> Seq<u32> {
    schedule.map_values(|config: StreamConfigView| config.id)
}

/// The configs among `seeds`, in their order: what the event handler has
/// in its table once it has taken them all in.
pub open spec fn configs_among(seeds: Seq<SeedView>) -> Seq<StreamConfigView>
    decreases seeds.len(),
{
    if seeds.len() == 0 {
        Seq::empty()
    } else {
        match seeds.last() {
            SeedView::Config(config) => configs_among(seeds.drop_last()).push(config),
            SeedView::BroadcasterId(_) => configs_among(seeds.drop_last()),
        }
    }
}

/// The ids among `seeds`, in their order: what reaches the subscriber.
pub open spec fn ids_among(seeds: Seq<SeedView>) -> Seq<u32>
    decreases seeds.len(),
{
    if seeds.len() == 0 {
        Seq::empty()
    } else {
        match seeds.last() {
            SeedView::BroadcasterId(id) => ids_among(seeds.drop_last()).push(id),
            SeedView::Config(_) => ids_among(seeds.drop_last()),
        }
    }
}

/// What the loader sends carries the schedule over whole: the configs that
/// reach the event handler are the schedule, and the ids that reach the
/// subscriber are the ids of the schedule, both in the order of the schedule.
pub proof fn law_seeds_carry_the_schedule(schedule: Seq<StreamConfigView>)
    ensures
        configs_among(seeds_of(schedule)) == schedule,
        ids_among(seeds_of(schedule)) == broadcaster_ids(schedule),
    decreases schedule.len(),
{
    let seeds = seeds_of(schedule);
    if schedule.len() == 0 {
        assert(configs_among(seeds) =~= schedule);
        assert(ids_among(seeds) =~= broadcaster_ids(schedule));
    } else {
        let front = schedule.drop_last();
        law_seeds_carry_the_schedule(front);
        let but_one = seeds.drop_last();
        assert(but_one.drop_last() =~= seeds_of(front));
        assert(seeds.last() == SeedView::Config(schedule.last()));
        assert(but_one.last() == SeedView::BroadcasterId(schedule.last().id));
        assert(configs_among(but_one) == configs_among(but_one.drop_last()));
        assert(configs_among(seeds) == configs_among(but_one).push(schedule.last()));
        assert(front.push(schedule.last()) =~= schedule);
        assert(ids_among(but_one) == ids_among(but_one.drop_last()).push(schedule.last().id));
        assert(ids_among(seeds) == ids_among(but_one));
        assert(broadcaster_ids(front).push(schedule.last().id) =~= broadcaster_ids(schedule));
    }
}

/// Everything that the loader sends for `streams`, in the order in which it
/// sends it.
pub fn file_watcher(streams: &Streams) -> (seeds: Vec<Seed>)
    ensures
        seeds.deep_view() == seeds_of(streams@),
{
    let configs = streams.configs();
    let mut seeds: Vec<Seed> = Vec::new();
    let mut at: usize = 0;
    while at < configs.len()
        invariant
            configs.deep_view() == streams@,
            at <= configs.len(),
            seeds.len() == 2 * at,
            forall|i: int| 0 <= i < 2 * at ==> (#[trigger] seeds[i])@ == seeds_of(streams@)[i],
        decreases configs.len() - at,
    {
        let ghost before = seeds@;
        assert(streams@[at as int] == configs[at as int]@);
        let streamer = configs[at].clone();
        seeds.push(Seed::BroadcasterId(streamer.id));
        seeds.push(Seed::Config(streamer));
        assert forall|i: int| 0 <= i < 2 * (at + 1) implies (#[trigger] seeds[i])@ == seeds_of(
            streams@,
        )[i] by {
            if i < 2 * at {
                assert(seeds[i] == before[i]);
            }
        }
        at += 1;
    }
    assert(seeds.deep_view() =~= seeds_of(streams@));
    seeds
}

/// The ids of the broadcasters of `streams`, in the order of the schedule.
pub fn subscription_ids(streams: &Streams) -> (ids: Vec<u32>)
    ensures
        ids@ == broadcaster_ids(streams@),
{
    let configs = streams.configs();
    let mut ids: Vec<u32> = Vec::new();
    let mut at: usize = 0;
    while at < configs.len()
        invariant
            configs.deep_view() == streams@,
            at <= configs.len(),
            ids.len() == at,
            forall|i: int| 0 <= i < at ==> ids[i] == (#[trigger] streams@[i]).id,
        decreases configs.len() - at,
    {
        assert(streams@[at as int] == configs[at as int]@);
        ids.push(configs[at].id);
        at += 1;
    }
    assert(ids@ =~= broadcaster_ids(streams@));
    ids
}

} // verus!
