use empty_backend::EmptyAudioBackend;

#[test]
fn ids_start_at_zero_and_are_shared() {
    let mut audio = EmptyAudioBackend::default();
    assert_eq!(audio.create_source(b"RIFF"), Ok(0));
    assert_eq!(audio.play_sound(0, false), Ok(1));
    assert_eq!(audio.create_source(&[]), Ok(2));
    assert_eq!(audio.play_sound(0, true), Ok(3));
    assert_eq!(audio.play_sound(2, true), Ok(4));
}

#[test]
fn a_sound_id_is_no_source_id() {
    let mut audio = EmptyAudioBackend::default();
    let mut sources = Vec::new();
    let mut sounds = Vec::new();
    for round in 0..40u64 {
        if round % 3 == 0 {
            sources.push(audio.create_source(&[round as u8]).unwrap());
        } else {
            sounds.push(audio.play_sound(round / 3, round % 2 == 0).unwrap());
        }
        if round % 7 == 0 {
            audio.clean(&sources[..sources.len() / 2], &sounds[..sounds.len() / 2]);
        }
    }
    for sound in &sounds {
        assert!(!sources.contains(sound));
    }
    let mut all = sources.clone();
    all.extend(&sounds);
    all.sort();
    assert_eq!(all, (0..40).collect::<Vec<u64>>());
}

#[test]
fn play_sound_does_not_ask_whether_the_source_exists() {
    let mut audio = EmptyAudioBackend::default();
    assert_eq!(audio.play_sound(99, false), Ok(0));
    assert!(!audio.is_stopped(0));
    assert_eq!(audio.play_sound(0, false), Ok(1));
    assert!(!audio.is_stopped(1));
}

#[test]
fn an_unknown_id_is_stopped_and_not_paused() {
    let mut audio = EmptyAudioBackend::default();
    for id in [0, 1, 2, 1000, u64::MAX] {
        assert!(audio.is_stopped(id));
        assert!(!audio.is_paused(id));
        assert_eq!(audio.volume(id), 0);
    }
    audio.create_source(&[]).unwrap();
    audio.play_sound(0, false).unwrap();
    for id in [2, 3, 1000, u64::MAX] {
        assert!(audio.is_stopped(id));
        assert!(!audio.is_paused(id));
    }
}

#[test]
fn a_source_id_is_no_instance() {
    let mut audio = EmptyAudioBackend::default();
    let source = audio.create_source(&[]).unwrap();
    assert!(audio.is_stopped(source));
    assert!(!audio.is_paused(source));
    audio.pause(source);
    audio.set_volume(source, 1.0f32.to_bits());
    assert!(!audio.is_paused(source));
    assert_eq!(audio.volume(source), 0);
}

#[test]
fn an_instance_plays_pauses_resumes_and_stops() {
    let mut audio = EmptyAudioBackend::default();
    let source = audio.create_source(&[]).unwrap();
    let sound = audio.play_sound(source, false).unwrap();
    assert!(!audio.is_stopped(sound));
    assert!(!audio.is_paused(sound));
    audio.resume(sound);
    assert!(!audio.is_paused(sound));
    audio.pause(sound);
    assert!(audio.is_paused(sound));
    assert!(!audio.is_stopped(sound));
    audio.pause(sound);
    assert!(audio.is_paused(sound));
    audio.resume(sound);
    assert!(!audio.is_paused(sound));
    assert!(!audio.is_stopped(sound));
    audio.stop(sound);
    assert!(audio.is_stopped(sound));
    assert!(!audio.is_paused(sound));
}

#[test]
fn a_paused_instance_can_be_stopped() {
    let mut audio = EmptyAudioBackend::default();
    let sound = audio.play_sound(0, true).unwrap();
    audio.pause(sound);
    audio.stop(sound);
    assert!(audio.is_stopped(sound));
    assert!(!audio.is_paused(sound));
}

#[test]
fn nothing_leads_out_of_stopped() {
    let mut audio = EmptyAudioBackend::default();
    let sound = audio.play_sound(0, true).unwrap();
    audio.stop(sound);
    audio.resume(sound);
    assert!(audio.is_stopped(sound));
    audio.pause(sound);
    assert!(audio.is_stopped(sound));
    assert!(!audio.is_paused(sound));
    audio.stop(sound);
    assert!(audio.is_stopped(sound));
}

#[test]
fn a_looping_instance_plays_until_it_is_stopped() {
    let mut audio = EmptyAudioBackend::default();
    let source = audio.create_source(&[]).unwrap();
    let sound = audio.play_sound(source, true).unwrap();
    for _ in 0..10 {
        assert!(!audio.is_stopped(sound));
    }
    audio.stop(sound);
    assert!(audio.is_stopped(sound));
}

#[test]
fn instances_are_independent() {
    let mut audio = EmptyAudioBackend::default();
    let source = audio.create_source(&[]).unwrap();
    let first = audio.play_sound(source, false).unwrap();
    let second = audio.play_sound(source, false).unwrap();
    audio.pause(first);
    audio.set_volume(second, 7);
    assert!(audio.is_paused(first));
    assert!(!audio.is_paused(second));
    assert_eq!(audio.volume(first), 0);
    assert_eq!(audio.volume(second), 7);
    audio.stop(second);
    assert!(audio.is_paused(first));
    assert!(audio.is_stopped(second));
}

#[test]
fn global_volume_is_echoed_unclamped() {
    let mut audio = EmptyAudioBackend::default();
    assert_eq!(f32::from_bits(audio.global_volume()), 0.0);
    for gain in [0.5f32, 1.0, 3.5, -2.0, f32::INFINITY] {
        audio.set_global_volume(gain.to_bits());
        assert_eq!(f32::from_bits(audio.global_volume()), gain);
    }
    audio.set_global_volume(f32::NAN.to_bits());
    assert_eq!(audio.global_volume(), f32::NAN.to_bits());
}

#[test]
fn the_gain_of_an_instance_is_its_own() {
    let mut audio = EmptyAudioBackend::default();
    let sound = audio.play_sound(0, false).unwrap();
    assert_eq!(f32::from_bits(audio.volume(sound)), 0.0);
    audio.set_volume(sound, 0.25f32.to_bits());
    audio.set_global_volume(0.5f32.to_bits());
    assert_eq!(f32::from_bits(audio.volume(sound)), 0.25);
    assert_eq!(f32::from_bits(audio.global_volume()), 0.5);
    audio.pause(sound);
    audio.stop(sound);
    assert_eq!(f32::from_bits(audio.volume(sound)), 0.25);
    audio.set_volume(sound, 0.75f32.to_bits());
    assert_eq!(f32::from_bits(audio.volume(sound)), 0.75);
}

#[test]
fn clean_releases_instances() {
    let mut audio = EmptyAudioBackend::default();
    let source = audio.create_source(&[]).unwrap();
    let kept = audio.play_sound(source, false).unwrap();
    let gone = audio.play_sound(source, false).unwrap();
    audio.set_volume(gone, 9);
    audio.pause(gone);
    audio.clean(&[], &[gone]);
    assert!(audio.is_stopped(gone));
    assert!(!audio.is_paused(gone));
    assert_eq!(audio.volume(gone), 0);
    assert!(!audio.is_stopped(kept));
    audio.resume(gone);
    audio.set_volume(gone, 3);
    assert!(audio.is_stopped(gone));
    assert_eq!(audio.volume(gone), 0);
}

#[test]
fn cleaning_a_source_stops_its_instances() {
    let mut audio = EmptyAudioBackend::default();
    let first = audio.create_source(&[]).unwrap();
    let second = audio.create_source(&[]).unwrap();
    let of_first = audio.play_sound(first, true).unwrap();
    let paused_of_first = audio.play_sound(first, false).unwrap();
    let of_second = audio.play_sound(second, true).unwrap();
    audio.pause(paused_of_first);
    audio.set_volume(of_first, 4);
    audio.clean(&[first], &[]);
    assert!(audio.is_stopped(of_first));
    assert!(audio.is_stopped(paused_of_first));
    assert!(!audio.is_paused(paused_of_first));
    assert!(!audio.is_stopped(of_second));
    assert_eq!(audio.volume(of_first), 4);
    audio.resume(paused_of_first);
    assert!(audio.is_stopped(paused_of_first));
}

#[test]
fn an_id_in_the_wrong_list_is_passed_over() {
    let mut audio = EmptyAudioBackend::default();
    let source = audio.create_source(&[]).unwrap();
    let sound = audio.play_sound(source, false).unwrap();
    audio.clean(&[sound], &[source]);
    assert!(!audio.is_stopped(sound));
    audio.set_volume(sound, 2);
    assert_eq!(audio.volume(sound), 2);
    audio.clean(&[source], &[]);
    assert!(audio.is_stopped(sound));
}

#[test]
fn an_instance_of_an_id_that_is_no_source_is_not_stopped_by_a_release() {
    let mut audio = EmptyAudioBackend::default();
    let orphan = audio.play_sound(5, false).unwrap();
    let of_sound = audio.play_sound(orphan, false).unwrap();
    audio.clean(&[5, orphan], &[]);
    assert!(!audio.is_stopped(orphan));
    assert!(!audio.is_stopped(of_sound));
}

#[test]
fn clean_twice_with_overlapping_ids() {
    let mut audio = EmptyAudioBackend::default();
    let a = audio.create_source(&[]).unwrap();
    let b = audio.create_source(&[]).unwrap();
    let x = audio.play_sound(a, false).unwrap();
    let y = audio.play_sound(b, false).unwrap();
    let z = audio.play_sound(b, false).unwrap();
    audio.clean(&[a], &[x, y]);
    audio.clean(&[a, b], &[y, 77, u64::MAX]);
    audio.clean(&[a, b], &[y, 77, u64::MAX]);
    audio.clean(&[a, a, a], &[x, x]);
    audio.clean(&[], &[]);
    assert!(audio.is_stopped(x));
    assert!(audio.is_stopped(y));
    assert!(audio.is_stopped(z));
    assert_eq!(audio.create_source(&[]), Ok(5));
    assert_eq!(audio.play_sound(5, false), Ok(6));
    assert!(!audio.is_stopped(6));
}

#[test]
fn a_released_id_is_not_given_out_again() {
    let mut audio = EmptyAudioBackend::default();
    let source = audio.create_source(&[]).unwrap();
    let sound = audio.play_sound(source, false).unwrap();
    audio.clean(&[source], &[sound]);
    assert_eq!(audio.create_source(&[]), Ok(2));
    assert_eq!(audio.play_sound(source, false), Ok(3));
    assert!(!audio.is_stopped(3));
    audio.clean(&[source], &[]);
    assert!(!audio.is_stopped(3));
}

#[test]
fn requests_for_unknown_ids_change_nothing() {
    let mut audio = EmptyAudioBackend::default();
    let sound = audio.play_sound(0, false).unwrap();
    audio.set_volume(sound, 11);
    for id in [1, 2, u64::MAX] {
        audio.pause(id);
        audio.resume(id);
        audio.stop(id);
        audio.set_volume(id, 5);
    }
    audio.clean(&[1, 2, u64::MAX], &[1, 2, u64::MAX]);
    assert!(!audio.is_stopped(sound));
    assert!(!audio.is_paused(sound));
    assert_eq!(audio.volume(sound), 11);
    assert_eq!(audio.create_source(&[]), Ok(1));
}
