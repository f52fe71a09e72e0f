use dropseed::channel::{AudioToMainParamValue, MainToAudioParamValue};
use dropseed::params::{ParamGestureInfo, ParamID, ParamValue};
use dropseed::reducing_queue::{ReducValue, ReducingQueue};

fn value(v: i64) -> MainToAudioParamValue {
    MainToAudioParamValue { value: ParamValue(v) }
}

#[test]
fn a_new_queue_hands_out_nothing() {
    let mut q: ReducingQueue<MainToAudioParamValue> = ReducingQueue::new(4);
    assert_eq!(q.released(), 0);
    assert_eq!(q.consume(), vec![]);
}

#[test]
fn setting_twice_before_the_consumer_looks_leaves_one_entry_with_the_last_value() {
    let mut q: ReducingQueue<MainToAudioParamValue> = ReducingQueue::new(4);
    q.set(ParamID(7), value(1));
    q.set(ParamID(7), value(5));
    q.producer_done();
    assert_eq!(q.consume(), vec![(ParamID(7), value(5))]);
    assert_eq!(q.consume(), vec![]);
}

#[test]
fn entries_come_out_in_the_order_in_which_their_keys_came_in() {
    let mut q: ReducingQueue<MainToAudioParamValue> = ReducingQueue::new(4);
    q.set(ParamID(3), value(30));
    q.set(ParamID(1), value(10));
    q.set(ParamID(2), value(20));
    q.set(ParamID(1), value(11));
    q.producer_done();
    assert_eq!(q.released(), 3);
    assert_eq!(
        q.consume(),
        vec![(ParamID(3), value(30)), (ParamID(1), value(11)), (ParamID(2), value(20))]
    );
}

#[test]
fn what_was_not_released_goes_on_waiting() {
    let mut q: ReducingQueue<MainToAudioParamValue> = ReducingQueue::new(4);
    q.set(ParamID(1), value(10));
    q.producer_done();
    q.set(ParamID(2), value(20));
    q.set(ParamID(1), value(12));
    assert_eq!(q.released(), 1);
    assert_eq!(q.consume(), vec![(ParamID(1), value(12))]);
    assert_eq!(q.consume(), vec![]);
    q.producer_done();
    assert_eq!(q.consume(), vec![(ParamID(2), value(20))]);
}

#[test]
fn a_queue_takes_more_keys_than_it_was_made_for() {
    let mut q: ReducingQueue<MainToAudioParamValue> = ReducingQueue::new(1);
    for i in 0..50u32 {
        q.set(ParamID(i), value(i as i64));
    }
    q.producer_done();
    let out = q.consume();
    assert_eq!(out.len(), 50);
    assert_eq!(out[49], (ParamID(49), value(49)));
}

#[test]
fn a_newer_value_takes_the_place_of_an_older_one() {
    let mut v = value(1);
    v.update(&value(2));
    assert_eq!(v, value(2));
}

#[test]
fn a_report_overwrites_only_the_fields_that_it_fills() {
    let begin = Some(ParamGestureInfo { is_begin: true });
    let end = Some(ParamGestureInfo { is_begin: false });
    let mut r = AudioToMainParamValue { value: None, gesture: begin };
    r.update(&AudioToMainParamValue { value: Some(ParamValue(4)), gesture: None });
    assert_eq!(r, AudioToMainParamValue { value: Some(ParamValue(4)), gesture: begin });
    r.update(&AudioToMainParamValue { value: None, gesture: end });
    assert_eq!(r, AudioToMainParamValue { value: Some(ParamValue(4)), gesture: end });
    r.update(&AudioToMainParamValue { value: None, gesture: None });
    assert_eq!(r, AudioToMainParamValue { value: Some(ParamValue(4)), gesture: end });
    r.update(&AudioToMainParamValue { value: Some(ParamValue(9)), gesture: begin });
    assert_eq!(r, AudioToMainParamValue { value: Some(ParamValue(9)), gesture: begin });
}

#[test]
fn merging_into_a_queue_keeps_a_waiting_gesture() {
    let begin = Some(ParamGestureInfo { is_begin: true });
    let mut q: ReducingQueue<AudioToMainParamValue> = ReducingQueue::new(2);
    q.set_or_update(ParamID(5), AudioToMainParamValue { value: None, gesture: begin });
    q.set_or_update(ParamID(5), AudioToMainParamValue { value: Some(ParamValue(8)), gesture: None });
    q.set_or_update(ParamID(6), AudioToMainParamValue { value: Some(ParamValue(1)), gesture: None });
    q.producer_done();
    assert_eq!(
        q.consume(),
        vec![
            (ParamID(5), AudioToMainParamValue { value: Some(ParamValue(8)), gesture: begin }),
            (ParamID(6), AudioToMainParamValue { value: Some(ParamValue(1)), gesture: None }),
        ]
    );
}
