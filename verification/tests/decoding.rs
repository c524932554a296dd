use peeches::decode::{DecodeConfig, Decoding, MAX_STEPS};
use peeches::gate::{registry_action, RegistryAction};

fn marian() -> DecodeConfig {
    DecodeConfig { start_token: 65000, eos_token: 0, forced_eos_token: 0 }
}

#[test]
fn decoding_starts_from_the_start_token() {
    let decoding = Decoding::new(marian());
    assert!(!decoding.is_finished());
    assert_eq!(decoding.next_token(), 65000);
    assert_eq!(decoding.position(), 0);
    assert_eq!(decoding.output(), Vec::<u32>::new());
}

#[test]
fn each_step_feeds_the_last_token_at_its_position() {
    let mut decoding = Decoding::new(marian());
    assert!(decoding.accept(17));
    assert_eq!(decoding.next_token(), 17);
    assert_eq!(decoding.position(), 1);
    assert!(decoding.accept(4));
    assert_eq!(decoding.next_token(), 4);
    assert_eq!(decoding.position(), 2);
    assert_eq!(decoding.output(), vec![17, 4]);
}

#[test]
fn end_token_stops_and_is_not_kept() {
    let mut decoding = Decoding::new(marian());
    assert!(decoding.accept(9));
    assert!(decoding.accept(8));
    assert!(!decoding.accept(0));
    assert!(decoding.is_finished());
    assert_eq!(decoding.output(), vec![9, 8]);
    // Whatever comes later changes nothing.
    assert!(!decoding.accept(7));
    assert!(decoding.is_finished());
    assert_eq!(decoding.output(), vec![9, 8]);
}

#[test]
fn end_token_at_once_decodes_to_nothing() {
    let mut decoding = Decoding::new(marian());
    assert!(!decoding.accept(0));
    assert!(decoding.is_finished());
    assert_eq!(decoding.output(), Vec::<u32>::new());
}

#[test]
fn forced_end_token_stops_too() {
    let config = DecodeConfig { start_token: 1, eos_token: 2, forced_eos_token: 3 };
    let mut decoding = Decoding::new(config);
    assert!(decoding.accept(1));
    assert!(!decoding.accept(3));
    assert_eq!(decoding.output(), vec![1]);
    let mut decoding = Decoding::new(config);
    assert!(!decoding.accept(2));
    assert_eq!(decoding.output(), Vec::<u32>::new());
}

#[test]
fn decoding_stops_at_the_step_limit() {
    assert_eq!(MAX_STEPS, 1000);
    let mut decoding = Decoding::new(marian());
    for step in 0..999 {
        assert!(decoding.accept(5), "stopped at step {}", step);
    }
    assert!(!decoding.is_finished());
    assert_eq!(decoding.position(), 999);
    assert!(!decoding.accept(6));
    assert!(decoding.is_finished());
    let output = decoding.output();
    assert_eq!(output.len(), 1000);
    assert_eq!(output[999], 6);
    assert!(!decoding.accept(7));
    assert_eq!(decoding.output().len(), 1000);
}

#[test]
fn encoder_input_is_closed_by_the_end_token() {
    assert_eq!(marian().encoder_input(vec![12, 7, 900]), vec![12, 7, 900, 0]);
    assert_eq!(marian().encoder_input(vec![]), vec![0]);
    assert!(marian().is_end(0));
    assert!(!marian().is_end(65000));
}

#[test]
fn listed_model_is_installed_only_if_complete_and_present() {
    assert_eq!(registry_action("completed", true), RegistryAction::Install);
    assert_eq!(registry_action("completed", false), RegistryAction::Forget);
    assert_eq!(registry_action("downloading", true), RegistryAction::Forget);
    assert_eq!(registry_action("Completed", true), RegistryAction::Forget);
    assert_eq!(registry_action("", false), RegistryAction::Forget);
}
