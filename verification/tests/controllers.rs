use lora2traffic::{
    rx_step, AckStatus, LampState, Message, Receiver, RxEvent, RxStep, Sender, Signal,
};

#[test]
fn receiver_applies_announcement_and_echoes() {
    // Receiver starts at Off; [0x75,1,0x72,0xFF] turns it Red, the
    // indicator shows red only, and the same frame comes back as the ack.
    let mut rcv = Receiver::new();
    assert_eq!(rcv.current, Signal::Off);
    let reply = rcv.on_frame(&[0x75, 1, 0x72, 0xFF]);
    assert_eq!(rcv.current, Signal::Red);
    assert_eq!(
        rcv.lamps(),
        LampState {
            red: true,
            yellow: false,
            green: false
        }
    );
    assert_eq!(reply, Some([0x75, 1, 0x72, 0xFF]));
}

#[test]
fn receiver_answers_query_without_changing_state() {
    // A query while holding Green elicits the Green announcement and leaves
    // the state alone.
    let mut rcv = Receiver::new();
    rcv.on_frame(&[0x75, 1, 0x67, 0xFF]);
    assert_eq!(rcv.current, Signal::Green);
    let reply = rcv.on_frame(&[0x75, 0, 0, 0xFF]);
    assert_eq!(reply, Some([0x75, 1, 0x67, 0xFF]));
    assert_eq!(rcv.current, Signal::Green);
}

#[test]
fn receiver_drops_malformed_frame() {
    // An invalid payload byte is discarded: no state change, no lamp
    // change, no reply.
    let mut rcv = Receiver::new();
    rcv.on_frame(&[0x75, 1, 0x72, 0xFF]);
    let lamps_before = rcv.lamps();
    let reply = rcv.on_frame(&[0x75, 1, 0x99, 0xFF]);
    assert_eq!(reply, None);
    assert_eq!(rcv.current, Signal::Red);
    assert_eq!(rcv.lamps(), lamps_before);
}

#[test]
fn receiver_lamps_table() {
    let expect = [
        (Signal::Red, true, false, false),
        (Signal::Yellow, false, true, false),
        (Signal::Green, false, false, true),
        (Signal::Off, false, false, false),
    ];
    for (s, red, yellow, green) in expect {
        assert_eq!(
            lora2traffic::lamps_for(s),
            LampState { red, yellow, green }
        );
    }
}

#[test]
fn sender_preview_table() {
    let expect = [
        (Signal::Red, true, false),
        (Signal::Yellow, true, true),
        (Signal::Green, false, true),
        (Signal::Off, false, false),
    ];
    for (s, red, green) in expect {
        assert_eq!(
            lora2traffic::preview_for(s),
            lora2traffic::PreviewLamps { red, green }
        );
        assert_eq!(
            Sender::new(Some(Message::Signal(s))).preview(),
            lora2traffic::PreviewLamps { red, green }
        );
    }
}

#[test]
fn sender_bootstrap_adopts_answer() {
    let snd = Sender::new(Some(Message::Signal(Signal::Green)));
    assert_eq!(snd.current, Signal::Green);
}

#[test]
fn sender_bootstrap_defaults_to_off() {
    assert_eq!(Sender::new(None).current, Signal::Off);
    assert_eq!(Sender::new(Some(Message::QuerySignal)).current, Signal::Off);
}

#[test]
fn sender_times_out_rotates_and_reconciles() {
    // Sender at Red waits the full 30 s window, rotates to Yellow and
    // announces it; an ack carrying Green instead makes it adopt Green and
    // report the mismatch.
    let mut snd = Sender::new(Some(Message::Signal(Signal::Red)));
    assert_eq!(snd.next_wait(), 30);
    let frame = snd.advance();
    assert_eq!(snd.current, Signal::Yellow);
    assert_eq!(frame, [0x75, 1, 0x79, 0xFF]);
    let ack = Message::from_bytes(&[0x75, 1, 0x67, 0xFF]);
    let status = snd.on_ack(ack);
    assert_eq!(status, AckStatus::Superseded);
    assert_eq!(snd.current, Signal::Green);
}

#[test]
fn sender_confirmed_by_matching_ack() {
    let mut snd = Sender::new(Some(Message::Signal(Signal::Off)));
    let frame = snd.advance();
    assert_eq!(snd.current, Signal::Red);
    assert_eq!(frame, [0x75, 1, 0x72, 0xFF]);
    let status = snd.on_ack(Some(Message::Signal(Signal::Red)));
    assert_eq!(status, AckStatus::Confirmed);
    assert_eq!(snd.current, Signal::Red);
}

#[test]
fn sender_keeps_state_without_ack() {
    let mut snd = Sender::new(Some(Message::Signal(Signal::Yellow)));
    snd.advance();
    assert_eq!(snd.current, Signal::Green);
    assert_eq!(snd.on_ack(None), AckStatus::Unconfirmed);
    assert_eq!(snd.current, Signal::Green);
    assert_eq!(
        snd.on_ack(Some(Message::QuerySignal)),
        AckStatus::Unconfirmed
    );
    assert_eq!(snd.current, Signal::Green);
}

#[test]
fn sender_wait_follows_duration() {
    for (s, wait) in [
        (Signal::Red, 30),
        (Signal::Yellow, 5),
        (Signal::Green, 30),
        (Signal::Off, 15),
    ] {
        assert_eq!(Sender::new(Some(Message::Signal(s))).next_wait(), wait);
    }
}

#[test]
fn rx_step_decisions() {
    assert_eq!(rx_step(&RxEvent::SetupFailed), RxStep::Fail);
    assert_eq!(rx_step(&RxEvent::RxFailed), RxStep::KeepListening);
    assert_eq!(
        rx_step(&RxEvent::Received(vec![0x75, 1, 0x6F, 0xFF])),
        RxStep::Delivered(Message::Signal(Signal::Off))
    );
    assert_eq!(
        rx_step(&RxEvent::Received(vec![0x75, 1, 0x99, 0xFF])),
        RxStep::KeepListening
    );
    assert_eq!(
        rx_step(&RxEvent::Received(vec![0x75, 0, 0, 0xFF])),
        RxStep::Delivered(Message::QuerySignal)
    );
}

#[test]
fn full_exchange_synchronizes_nodes() {
    // One lossless period: the sender rotates and announces, the receiver
    // applies and echoes, the sender sees the round confirmed, and both
    // nodes hold the same state.
    let mut rcv = Receiver::new();
    let mut snd = Sender::new(Some(Message::Signal(rcv.current)));
    for _ in 0..5 {
        let frame = snd.advance();
        let reply = rcv.on_frame(&frame).expect("valid frame must elicit a reply");
        let ack = Message::from_bytes(&reply);
        assert_eq!(snd.on_ack(ack), AckStatus::Confirmed);
        assert_eq!(snd.current, rcv.current);
    }
}
