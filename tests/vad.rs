use voice_controllm::vad::{
    check_chunk_size, ChunkContext, VadConfig, VadError, VadEvent, VadStateMachine, CONTEXT_SIZE,
    DEFAULT_THRESHOLD,
};

#[test]
fn test_state_machine_initial_state() {
    let sm = VadStateMachine::new(VadConfig::default());
    assert!(!sm.is_speaking());
}

#[test]
fn test_state_machine_speech_start() {
    let config = VadConfig {
        threshold: 500_000,
        min_speech_chunks: 2,
        min_silence_chunks: 3,
    };
    let mut sm = VadStateMachine::new(config);

    assert_eq!(sm.process(800_000), None);
    assert!(!sm.is_speaking());

    assert_eq!(sm.process(900_000), Some(VadEvent::SpeechStart));
    assert!(sm.is_speaking());

    assert_eq!(sm.process(700_000), None);
    assert!(sm.is_speaking());
}

#[test]
fn test_state_machine_speech_end() {
    let config = VadConfig {
        threshold: 500_000,
        min_speech_chunks: 1,
        min_silence_chunks: 2,
    };
    let mut sm = VadStateMachine::new(config);

    assert_eq!(sm.process(800_000), Some(VadEvent::SpeechStart));

    assert_eq!(sm.process(200_000), None);
    assert!(sm.is_speaking());

    assert_eq!(sm.process(100_000), Some(VadEvent::SpeechEnd));
    assert!(!sm.is_speaking());
}

#[test]
fn test_state_machine_threshold() {
    let config = VadConfig {
        threshold: 700_000,
        min_speech_chunks: 1,
        min_silence_chunks: 1,
    };
    let mut sm = VadStateMachine::new(config);

    assert_eq!(sm.process(690_000), None);
    assert!(!sm.is_speaking());

    assert_eq!(sm.process(700_000), Some(VadEvent::SpeechStart));
    assert!(sm.is_speaking());

    assert_eq!(sm.process(690_000), Some(VadEvent::SpeechEnd));
    assert!(!sm.is_speaking());
}

#[test]
fn test_state_machine_interrupted_speech() {
    let config = VadConfig {
        threshold: 500_000,
        min_speech_chunks: 3,
        min_silence_chunks: 3,
    };
    let mut sm = VadStateMachine::new(config);

    sm.process(800_000);
    sm.process(800_000);
    assert!(!sm.is_speaking());

    sm.process(200_000);

    sm.process(800_000);
    sm.process(800_000);
    assert!(!sm.is_speaking());

    sm.process(800_000);
    assert!(sm.is_speaking());
}

#[test]
fn test_state_machine_reset() {
    let config = VadConfig {
        threshold: 500_000,
        min_speech_chunks: 1,
        min_silence_chunks: 1,
    };
    let mut sm = VadStateMachine::new(config);

    sm.process(800_000);
    assert!(sm.is_speaking());

    sm.reset();
    assert!(!sm.is_speaking());
}

#[test]
fn test_default_config() {
    let config = VadConfig::default();
    assert_eq!(config.threshold, DEFAULT_THRESHOLD);
    assert_eq!(config.threshold, 500_000);
    assert_eq!(config.min_speech_chunks, 2);
    assert_eq!(config.min_silence_chunks, 8);
}

#[test]
fn end_to_end_probability_sequence() {
    let config = VadConfig {
        threshold: 500_000,
        min_speech_chunks: 2,
        min_silence_chunks: 2,
    };
    let mut sm = VadStateMachine::new(config);
    assert_eq!(sm.process(200_000), None);
    assert_eq!(sm.process(800_000), None);
    assert_eq!(sm.process(900_000), Some(VadEvent::SpeechStart));
    assert_eq!(sm.process(700_000), None);
    assert_eq!(sm.process(200_000), None);
    assert_eq!(sm.process(100_000), Some(VadEvent::SpeechEnd));
}

#[test]
fn speech_start_fires_once_per_run() {
    let mut sm = VadStateMachine::new(VadConfig::default());
    let mut starts = 0;
    for _ in 0..20 {
        if sm.process(900_000) == Some(VadEvent::SpeechStart) {
            starts += 1;
        }
    }
    assert_eq!(starts, 1);
}

#[test]
fn interrupted_runs_never_start() {
    let config = VadConfig {
        threshold: 500_000,
        min_speech_chunks: 4,
        min_silence_chunks: 2,
    };
    let mut sm = VadStateMachine::new(config);
    let probs = [900_000, 900_000, 900_000, 100_000, 900_000, 900_000, 900_000];
    for p in probs {
        assert_ne!(sm.process(p), Some(VadEvent::SpeechStart));
    }
    assert!(!sm.is_speaking());
    assert_eq!(sm.process(900_000), Some(VadEvent::SpeechStart));
}

#[test]
fn threshold_is_inclusive() {
    let config = VadConfig {
        threshold: 500_000,
        min_speech_chunks: 1,
        min_silence_chunks: 1,
    };
    let mut sm = VadStateMachine::new(config);
    assert_eq!(sm.process(499_999), None);
    assert_eq!(sm.process(500_000), Some(VadEvent::SpeechStart));
}

#[test]
fn silence_only_stream_has_no_events() {
    let mut sm = VadStateMachine::new(VadConfig::default());
    for _ in 0..500 {
        assert_eq!(sm.process(20_000), None);
    }
    assert!(!sm.is_speaking());
}

#[test]
fn chunk_size_validation() {
    for n in [512, 1024, 1536] {
        assert_eq!(check_chunk_size(n), Ok(n));
    }
    assert_eq!(check_chunk_size(100), Err(VadError::InvalidChunkSize(100)));
    assert!(ChunkContext::new(100, 0i16).is_err());
}

#[test]
fn context_is_prepended_and_advanced() {
    let mut ctx = ChunkContext::new(512, 0i32).unwrap();
    assert_eq!(ctx.chunk_size(), 512);
    let chunk: Vec<i32> = (0..512).collect();
    let input = ctx.input_for(&chunk).unwrap();
    assert_eq!(input.len(), 512 + CONTEXT_SIZE);
    assert!(input[..CONTEXT_SIZE].iter().all(|&x| x == 0));
    assert_eq!(&input[CONTEXT_SIZE..], &chunk[..]);

    ctx.advance(&chunk);
    let next: Vec<i32> = (1000..1512).collect();
    let input2 = ctx.input_for(&next).unwrap();
    let tail: Vec<i32> = (448..512).collect();
    assert_eq!(&input2[..CONTEXT_SIZE], &tail[..]);

    assert_eq!(
        ctx.input_for(&[1, 2, 3]),
        Err(VadError::ChunkSizeMismatch { expected: 512, actual: 3 })
    );

    ctx.reset();
    let input3 = ctx.input_for(&next).unwrap();
    assert!(input3[..CONTEXT_SIZE].iter().all(|&x| x == 0));
}
