use stemgen::SongMetadata;
use stemgen::names::{base_name, file_name, WriteFormat};
use stemgen::plan::{effective_float_samples, plan_task};
use stemgen::render::{
    alloc_buffer, capacity_bytes, finish_render, render_params_for, should_write_output,
    truncate_rendered, RenderConfig, RenderOutcome,
};
use stemgen::tasks::{build_tasks, task_for_index, RenderFlags, RenderTask, Selector};

fn meta_4x3() -> SongMetadata {
    SongMetadata {
        channel_count: 4,
        instrument_count: 3,
        duration_seconds_ceil: 10,
    }
}

#[test]
fn metadata_validity() {
    assert!(meta_4x3().is_valid());
    let no_channels = SongMetadata {
        channel_count: 0,
        instrument_count: 3,
        duration_seconds_ceil: 10,
    };
    assert!(!no_channels.is_valid());
    let no_instruments = SongMetadata {
        channel_count: 4,
        instrument_count: 0,
        duration_seconds_ceil: 10,
    };
    assert!(!no_instruments.is_valid());
    let no_duration = SongMetadata {
        channel_count: 4,
        instrument_count: 3,
        duration_seconds_ceil: 0,
    };
    assert!(!no_duration.is_valid());
}

#[test]
fn full_mix_is_always_stereo() {
    // The global stereo preference is off, yet the full mix renders stereo.
    let flags = RenderFlags {
        render_full: true,
        render_per_channel: false,
        render_per_instrument: false,
        stereo: false,
    };
    let tasks = build_tasks(&meta_4x3(), flags);
    assert_eq!(tasks.len(), 1);
    assert_eq!(
        tasks[0],
        RenderTask {
            channel: Selector::All,
            instrument: Selector::All,
            stereo: true,
        }
    );
}

#[test]
fn per_channel_grid_has_one_task_per_pair() {
    let flags = RenderFlags {
        render_full: false,
        render_per_channel: true,
        render_per_instrument: false,
        stereo: true,
    };
    let tasks = build_tasks(&meta_4x3(), flags);
    assert_eq!(tasks.len(), 12);
    // Channel varies fastest: index = instrument * channel_count + channel.
    assert_eq!(
        tasks[0],
        RenderTask {
            channel: Selector::One(0),
            instrument: Selector::One(0),
            stereo: true,
        }
    );
    assert_eq!(
        tasks[5],
        RenderTask {
            channel: Selector::One(1),
            instrument: Selector::One(1),
            stereo: true,
        }
    );
    assert_eq!(
        tasks[11],
        RenderTask {
            channel: Selector::One(3),
            instrument: Selector::One(2),
            stereo: true,
        }
    );
}

#[test]
fn full_mix_and_grid_are_additive() {
    let flags = RenderFlags {
        render_full: true,
        render_per_channel: true,
        render_per_instrument: false,
        stereo: false,
    };
    let tasks = build_tasks(&meta_4x3(), flags);
    assert_eq!(tasks.len(), 13);
    assert_eq!(tasks[0].channel, Selector::All);
    assert_eq!(tasks[0].instrument, Selector::All);
}

#[test]
fn per_instrument_tasks() {
    let flags = RenderFlags {
        render_full: false,
        render_per_channel: false,
        render_per_instrument: true,
        stereo: false,
    };
    let tasks = build_tasks(&meta_4x3(), flags);
    assert_eq!(tasks.len(), 3);
    for (i, t) in tasks.iter().enumerate() {
        assert_eq!(t.channel, Selector::All);
        assert_eq!(t.instrument, Selector::One(i as u32));
        assert!(!t.stereo);
    }
}

#[test]
fn index_derivation() {
    let t = task_for_index(7, 4, false);
    assert_eq!(t.channel, Selector::One(3));
    assert_eq!(t.instrument, Selector::One(1));
}

#[test]
fn capacity_formula_exact() {
    // (10 + 5 margin) seconds * 48000 Hz * 2 bytes * 2 channels.
    assert_eq!(capacity_bytes(10, 48000, 2, 2), 2_880_000);
    assert_eq!(capacity_bytes(10, 48000, 4, 1), 2_880_000);
    assert_eq!(capacity_bytes(0, 8000, 2, 1), 80_000);
}

#[test]
fn buffer_is_zeroed_and_sized() {
    let buf = alloc_buffer(1000);
    assert_eq!(buf.len(), 1000);
    assert!(buf.iter().all(|b| *b == 0));
}

#[test]
fn rendered_length_respects_capacity() {
    // The engine reports 4 of 10 bytes: the output is the 4-byte prefix.
    let mut buf = vec![1u8, 2, 3, 4, 5, 6, 7, 8, 9, 10];
    assert!(truncate_rendered(&mut buf, 4));
    assert_eq!(buf, vec![1, 2, 3, 4]);
    // A report beyond the allocation is rejected and changes nothing.
    let mut buf = vec![1u8, 2, 3];
    assert!(!truncate_rendered(&mut buf, 11));
    assert_eq!(buf, vec![1, 2, 3]);
}

#[test]
fn silence_skip_policy() {
    let silent = vec![0u8; 4096];
    assert!(!should_write_output(&silent));
    let mut one_sample = vec![0u8; 4096];
    one_sample[4095] = 1;
    assert!(should_write_output(&one_sample));
    // An empty render is silent too.
    assert!(!should_write_output(&Vec::new()));
}

#[test]
fn render_outcome_decides_the_whole_task() {
    // A report beyond the allocation abandons the task.
    let mut buf = vec![0u8, 9, 0, 0];
    assert_eq!(finish_render(&mut buf, 5), RenderOutcome::RejectedLength);
    assert_eq!(buf, vec![0, 9, 0, 0]);
    // Sound within the reported length is written, truncated to the report.
    let mut buf = vec![0u8, 9, 0, 0];
    assert_eq!(finish_render(&mut buf, 2), RenderOutcome::Write);
    assert_eq!(buf, vec![0, 9]);
    // Sound only past the reported length is silence.
    let mut buf = vec![0u8, 0, 0, 9];
    assert_eq!(finish_render(&mut buf, 3), RenderOutcome::Silent);
    assert_eq!(buf, vec![0, 0, 0]);
}

#[test]
fn engine_params_for_isolated_stem() {
    let task = RenderTask {
        channel: Selector::One(3),
        instrument: Selector::One(2),
        stereo: false,
    };
    let config = RenderConfig {
        sample_rate: 48000,
        float_samples: false,
        stereo_separation: None,
    };
    let p = render_params_for(&task, &config);
    assert_eq!(p.sample_rate, 48000);
    assert_eq!(p.bytes_per_sample, 2);
    assert_eq!(p.channel_to_play, 3);
    assert_eq!(p.instrument_to_play, 2);
    assert_eq!(p.stereo_separation, 100);
    assert!(!p.stereo_separation_enabled);
    assert!(!p.stereo_output);
}

#[test]
fn engine_params_full_mix_and_separation() {
    let task = RenderTask {
        channel: Selector::All,
        instrument: Selector::All,
        stereo: true,
    };
    let config = RenderConfig {
        sample_rate: 44100,
        float_samples: true,
        stereo_separation: Some(150),
    };
    let p = render_params_for(&task, &config);
    assert_eq!(p.bytes_per_sample, 4);
    assert_eq!(p.channel_to_play, -1);
    assert_eq!(p.instrument_to_play, -1);
    assert_eq!(p.stereo_separation, 150);
    assert!(p.stereo_separation_enabled);
    assert!(p.stereo_output);
}

#[test]
fn block_codec_forces_float() {
    assert!(effective_float_samples(false, WriteFormat::Vorbis));
    assert!(effective_float_samples(true, WriteFormat::Flac));
    assert!(!effective_float_samples(false, WriteFormat::Wav));
}

#[test]
fn names_follow_the_convention() {
    assert_eq!(base_name("song", Selector::All, Selector::All), "song");
    assert_eq!(
        base_name("song", Selector::All, Selector::One(0)),
        "song_0001_chan_full"
    );
    assert_eq!(
        base_name("song", Selector::One(7), Selector::One(2)),
        "song_0003_chan_0007"
    );
    assert_eq!(
        file_name("song", Selector::All, Selector::All, WriteFormat::Wav),
        "song.wav"
    );
    assert_eq!(
        file_name("song", Selector::One(0), Selector::One(0), WriteFormat::Flac),
        "song_0001_chan_0000.flac"
    );
    assert_eq!(
        file_name("song", Selector::All, Selector::One(11), WriteFormat::Vorbis),
        "song_0012_chan_full.ogg"
    );
    assert_eq!(
        file_name("song", Selector::One(10000), Selector::One(9999), WriteFormat::Mp3),
        "song_10000_chan_10000.mp3"
    );
}

#[test]
fn names_are_deterministic_and_collision_free() {
    let flags = RenderFlags {
        render_full: true,
        render_per_channel: true,
        render_per_instrument: false,
        stereo: true,
    };
    let tasks = build_tasks(&meta_4x3(), flags);
    let names: Vec<String> = tasks
        .iter()
        .map(|t| file_name("tune", t.channel, t.instrument, WriteFormat::Flac))
        .collect();
    let again: Vec<String> = tasks
        .iter()
        .map(|t| file_name("tune", t.channel, t.instrument, WriteFormat::Flac))
        .collect();
    assert_eq!(names, again);
    for i in 0..names.len() {
        for j in 0..names.len() {
            if i != j {
                assert_ne!(names[i], names[j]);
            }
        }
    }
}

#[test]
fn plan_for_one_task() {
    let meta = meta_4x3();
    let config = RenderConfig {
        sample_rate: 48000,
        float_samples: false,
        stereo_separation: None,
    };
    let task = RenderTask {
        channel: Selector::One(1),
        instrument: Selector::One(0),
        stereo: true,
    };
    let plan = plan_task(&meta, &config, &task, "demo", WriteFormat::Wav);
    assert_eq!(plan.capacity, 2_880_000);
    assert_eq!(plan.file_name, "demo_0001_chan_0001.wav");
    assert_eq!(plan.params.channel_to_play, 1);
    assert_eq!(plan.params.instrument_to_play, 0);
    assert!(plan.params.stereo_output);
}
