use live_translate::decoding::{GreedyDecoder, MAX_DECODE_STEPS};

const START: u32 = 65_000;
const EOS: u32 = 0;

/// Runs a decoder on the tokens that a model would sample, in order.
fn run(sampled: &[u32]) -> (GreedyDecoder, usize) {
    let mut decoder = GreedyDecoder::new(START, EOS, EOS);
    let mut steps = 0;
    for token in sampled {
        if decoder.is_finished() {
            break;
        }
        decoder.accept(*token);
        steps += 1;
    }
    (decoder, steps)
}

#[test]
fn run_has_at_most_128_steps() {
    assert_eq!(MAX_DECODE_STEPS, 128);
}

#[test]
fn first_step_shows_the_start_token() {
    let decoder = GreedyDecoder::new(START, EOS, EOS);
    assert!(!decoder.is_finished());
    assert_eq!(decoder.context_start(), 0);
    assert_eq!(decoder.context(), vec![START]);
    assert!(decoder.output().is_empty());
}

#[test]
fn later_steps_show_the_latest_token_only() {
    let mut decoder = GreedyDecoder::new(START, EOS, EOS);
    decoder.accept(11);
    assert_eq!(decoder.context_start(), 1);
    assert_eq!(decoder.context(), vec![11]);
    decoder.accept(22);
    assert_eq!(decoder.context_start(), 2);
    assert_eq!(decoder.context(), vec![22]);
    decoder.accept(33);
    assert_eq!(decoder.context_start(), 3);
    assert_eq!(decoder.context(), vec![33]);
    assert_eq!(decoder.output(), vec![11, 22, 33]);
}

#[test]
fn end_token_ends_the_run_and_is_left_out() {
    let (decoder, steps) = run(&[5, 6, 7, EOS, 8, 9]);
    assert!(decoder.is_finished());
    assert_eq!(steps, 4);
    assert_eq!(decoder.output(), vec![5, 6, 7]);
}

#[test]
fn forced_end_token_ends_the_run_too() {
    let mut decoder = GreedyDecoder::new(START, 0, 2);
    decoder.accept(5);
    assert!(!decoder.is_finished());
    decoder.accept(2);
    assert!(decoder.is_finished());
    assert_eq!(decoder.output(), vec![5]);
}

#[test]
fn run_may_end_at_once() {
    let (decoder, steps) = run(&[EOS]);
    assert!(decoder.is_finished());
    assert_eq!(steps, 1);
    assert!(decoder.output().is_empty());
}

#[test]
fn run_ends_after_the_last_step_without_an_end_token() {
    let sampled: Vec<u32> = (1..=200).collect();
    let (decoder, steps) = run(&sampled);
    assert!(decoder.is_finished());
    assert_eq!(steps, 128);
    assert_eq!(decoder.output(), (1..=128).collect::<Vec<u32>>());
}

#[test]
fn start_token_may_come_again_in_the_output() {
    let (decoder, _) = run(&[START, 4, START]);
    assert!(!decoder.is_finished());
    assert_eq!(decoder.output(), vec![START, 4, START]);
}
