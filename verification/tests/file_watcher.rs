use stream_cave::file_watcher::{file_watcher, subscription_ids, Seed};
use stream_cave::{StreamConfig, Streams};

fn streamer(name: &str, id: u32) -> StreamConfig {
    StreamConfig {
        name: String::from(name),
        id,
        quality_overides: vec![(String::from("normal"), 480), (String::from("low-data"), 0)],
        streams_to_close_on: Vec::new(),
        streams_to_open_on: Vec::new(),
    }
}

#[test]
fn send_3_messages() {
    let kai = streamer("kaicenat", 641_972_806);
    let hasan = streamer("hasanabi", 207_813_352);
    let jynxzi = streamer("jynxzi", 411_377_640);
    let streams = Streams::from_configs(vec![kai.clone(), hasan.clone(), jynxzi.clone()]);

    let seeds = file_watcher(&streams);
    let mut ids = Vec::new();
    let mut configs = Vec::new();
    for seed in &seeds {
        match seed {
            Seed::BroadcasterId(id) => ids.push(*id),
            Seed::Config(config) => configs.push(config.clone()),
        }
    }
    let mut id_reciever = ids.into_iter();
    let mut config_reciever = configs.into_iter();
    assert_eq!(id_reciever.next(), Some(641_972_806));
    assert_eq!(id_reciever.next(), Some(207_813_352));
    assert_eq!(id_reciever.next(), Some(411_377_640));
    assert_eq!(id_reciever.next(), None);
    assert_eq!(config_reciever.next(), Some(kai));
    assert_eq!(config_reciever.next(), Some(hasan));
    assert_eq!(config_reciever.next(), Some(jynxzi));
    assert_eq!(config_reciever.next(), None);
}

#[test]
fn the_id_of_a_stream_goes_out_before_its_config() {
    let kai = streamer("kaicenat", 641_972_806);
    let hasan = streamer("hasanabi", 207_813_352);
    let streams = Streams::from_configs(vec![kai.clone(), hasan.clone()]);
    assert_eq!(
        file_watcher(&streams),
        vec![
            Seed::BroadcasterId(641_972_806),
            Seed::Config(kai),
            Seed::BroadcasterId(207_813_352),
            Seed::Config(hasan),
        ]
    );
}

#[test]
fn an_empty_schedule_seeds_nothing() {
    assert_eq!(file_watcher(&Streams::new()), Vec::new());
    assert_eq!(subscription_ids(&Streams::new()), Vec::<u32>::new());
}

#[test]
fn the_loader_sends_the_same_again_for_the_same_schedule() {
    let streams = Streams::from_configs(vec![
        streamer("kaicenat", 641_972_806),
        streamer("unresolved", 0),
        streamer("jynxzi", 411_377_640),
    ]);
    assert_eq!(subscription_ids(&streams), vec![641_972_806, 0, 411_377_640]);
    assert_eq!(file_watcher(&streams), file_watcher(&streams));
    assert_eq!(subscription_ids(&streams), subscription_ids(&streams.clone()));
}
