use cyclic_pipe::cyclic_pipe::stream::take;
use cyclic_pipe::{Builder, Consumer, Disconnected, Producer, Taken, Token};
use std::sync::mpsc::{channel, Receiver, RecvError, TryRecvError};

// ---------------------------------------------------------------- conservation

#[test]
fn completed_writes_stay_within_capacity_of_completed_reads() {
    let capacity = 3usize;
    let (p, c) = Builder::new()
        .with_size(capacity)
        .with_init_template(0u32)
        .build();
    let mut writes_done = 0usize;
    let mut reads_done = 0usize;
    for round in 0..20u32 {
        // The producer runs as far ahead as the pipe lets it.
        let ahead = capacity - (writes_done - reads_done);
        for k in 0..ahead {
            let mut wt = p.get_write_token().unwrap();
            wt.buf = round * 10 + k as u32;
            wt.done();
            writes_done += 1;
            assert!(writes_done - reads_done <= capacity);
        }
        assert_eq!(writes_done - reads_done, capacity);
        // The consumer reads one or two of them.
        for _ in 0..(1 + round % 2) {
            let rt = c.get_read_token().unwrap();
            rt.done();
            reads_done += 1;
            assert!(reads_done <= writes_done);
        }
    }
    assert_eq!(reads_done, 30);
    assert_eq!(writes_done, 31);
}

// ---------------------------------------------------- acquisition-order delivery

#[test]
fn three_tokens_completed_in_every_order_are_read_in_acquisition_order() {
    let orders: [[usize; 3]; 6] = [
        [0, 1, 2],
        [0, 2, 1],
        [1, 0, 2],
        [1, 2, 0],
        [2, 0, 1],
        [2, 1, 0],
    ];
    for order in orders {
        let (p, c) = Builder::new()
            .with_size(3)
            .with_init_template(String::new())
            .build();
        let mut tokens: Vec<Option<Token<String>>> = Vec::new();
        for i in 0..3 {
            let mut wt = p.get_write_token().unwrap();
            wt.buf = format!("frame {}", i);
            tokens.push(Some(wt));
        }
        for i in order {
            tokens[i].take().unwrap().done();
        }
        for i in 0..3 {
            let rt = c.get_read_token().unwrap();
            assert_eq!(rt.buf, format!("frame {}", i));
            rt.done();
        }
    }
}

#[test]
fn out_of_order_completion_over_many_frames() {
    let frame_size = 1000;
    let (p, c) = Builder::<Vec<f32>>::new()
        .with_size(2)
        .with_init_template(vec![std::f32::NAN; frame_size])
        .build();
    for pair in 0..500 {
        let mut first = p.get_write_token().unwrap();
        let mut second = p.get_write_token().unwrap();
        assert!(first.buf.len() == frame_size);
        assert!(second.buf.len() == frame_size);
        // The later token is written and completed before the earlier one.
        second.buf[0] = (2 * pair + 1) as f32;
        second.done();
        first.buf[0] = (2 * pair) as f32;
        first.done();
        for i in [2 * pair, 2 * pair + 1] {
            let token = c.get_read_token().unwrap();
            assert!(token.buf.len() == frame_size);
            assert_eq!(token.buf[0], i as f32);
            token.done();
        }
    }
}

#[test]
fn buffers_are_recycled_not_cloned_again() {
    let (p, c) = Builder::new()
        .with_size(2)
        .with_init_template(vec![0u8; 4])
        .build();
    for round in 1..=3u8 {
        for k in 0..2u8 {
            let mut wt = p.get_write_token().unwrap();
            // What comes round is what the consumer last returned.
            assert_eq!(wt.buf[1], if round == 1 { 0 } else { 100 + k });
            wt.buf[0] = round;
            wt.done();
        }
        for k in 0..2u8 {
            let mut rt = c.get_read_token().unwrap();
            assert_eq!(rt.buf[0], round);
            rt.buf[1] = 100 + k;
            rt.done();
        }
    }
}

// ------------------------------------------------------------------ backpressure

/// The test plays the producer by hand, so that it can look at the empty
/// stream without waiting on it.
#[test]
fn empty_stream_holds_capacity_slots_and_refills_on_read_completion() {
    let capacity = 2;
    let (tx_empty, rx_empty) = channel::<Receiver<u8>>();
    let (tx_full, rx_full) = channel::<Receiver<u8>>();
    for _ in 0..capacity {
        let (tx, rx) = channel();
        tx_empty.send(rx).unwrap();
        tx.send(0u8).unwrap();
    }
    let c = Consumer::new(rx_full, tx_empty);

    // The producer takes both buffers and queues them filled.
    for i in 0..capacity {
        let buf = rx_empty.try_recv().unwrap().try_recv().unwrap();
        assert_eq!(buf, 0);
        let (tx, rx) = channel();
        tx_full.send(rx).unwrap();
        Token::new(10 + i as u8, tx).done();
    }
    // A third acquisition would wait: nothing is queued, and the consumer lives.
    assert_eq!(rx_empty.try_recv().err(), Some(TryRecvError::Empty));

    // Acquiring a read token reserves the way back, but returns nothing yet.
    let mut rt = c.get_read_token().unwrap();
    assert_eq!(rt.buf, 10);
    let back = rx_empty.try_recv().unwrap();
    assert_eq!(back.try_recv().err(), Some(TryRecvError::Empty));

    // Completing it ends the wait, with the buffer as the consumer left it.
    rt.buf = 77;
    rt.done();
    assert_eq!(back.try_recv(), Ok(77));
    assert_eq!(rx_empty.try_recv().err(), Some(TryRecvError::Empty));
}

#[test]
fn single_buffer_pipe_alternates() {
    let (p, c) = Builder::new()
        .with_size(1)
        .with_init_template("".to_string())
        .build();
    let mut wt = p.get_write_token().unwrap();
    wt.buf = "hello".to_string();
    wt.done();

    let rt = c.get_read_token().unwrap();
    assert!(rt.buf == "hello");
    rt.done();

    // Only now is there a buffer for the producer again.
    let mut wt = p.get_write_token().unwrap();
    assert!(wt.buf == "hello");
    wt.buf = "world".to_string();
    wt.done();
    assert!(c.get_read_token().unwrap().buf == "world");
}

// ------------------------------------------------------------- blocking symmetry

/// The test plays the consumer by hand, so that it can look at the full
/// stream without waiting on it.
#[test]
fn full_stream_slot_is_pending_until_write_completion() {
    let (tx_empty, rx_empty) = channel::<Receiver<String>>();
    let (tx_full, rx_full) = channel::<Receiver<String>>();
    let (tx, rx) = channel();
    tx_empty.send(rx).unwrap();
    tx.send(String::new()).unwrap();
    let p = Producer::new(rx_empty, tx_full);

    // Nothing acquired: nothing is queued for the consumer.
    assert_eq!(rx_full.try_recv().err(), Some(TryRecvError::Empty));

    // Acquired: the place is reserved, and a consumer would wait on it.
    let mut wt = p.get_write_token().unwrap();
    let slot = rx_full.try_recv().unwrap();
    assert_eq!(slot.try_recv().err(), Some(TryRecvError::Empty));
    wt.buf = "hello".to_string();
    assert_eq!(slot.try_recv().err(), Some(TryRecvError::Empty));

    // Completed: the wait is over.
    wt.done();
    assert_eq!(slot.try_recv(), Ok("hello".to_string()));
    drop(tx_empty);
}

// ------------------------------------------------------------ abandonment signal

#[test]
fn dropped_write_token_disconnects_the_read_that_reaches_it() {
    let (p, c) = Builder::new()
        .with_size(3)
        .with_init_template(0u8)
        .build();
    let mut w1 = p.get_write_token().unwrap();
    let w2 = p.get_write_token().unwrap();
    let mut w3 = p.get_write_token().unwrap();
    drop(w2);
    w3.buf = 3;
    w3.done();
    w1.buf = 1;
    w1.done();

    // The first token was completed, so the first read finds its buffer.
    assert_eq!(c.get_read_token().unwrap().buf, 1);
    // The second read reaches the slot of the dropped token.
    assert_eq!(c.get_read_token().err(), Some(Disconnected));
    // The signal is given once; the third slot is behind it.
    assert_eq!(c.get_read_token().unwrap().buf, 3);
}

#[test]
fn dropped_read_token_disconnects_the_producer() {
    let (p, c) = Builder::new()
        .with_size(1)
        .with_init_template(0u8)
        .build();
    p.get_write_token().unwrap().done();
    drop(c.get_read_token().unwrap());
    assert_eq!(p.get_write_token().err(), Some(Disconnected));
}

// -------------------------------------------------------- completion never fails

#[test]
fn done_returns_in_every_state_of_the_ends() {
    let (p, c) = Builder::new()
        .with_size(4)
        .with_init_template(0u8)
        .build();
    let w1 = p.get_write_token().unwrap();
    let w2 = p.get_write_token().unwrap();
    let w3 = p.get_write_token().unwrap();
    let w4 = p.get_write_token().unwrap();
    w1.done();
    w2.done();
    let r1 = c.get_read_token().unwrap();
    let r2 = c.get_read_token().unwrap();

    // Both ends exist.
    r1.done();
    // The producer is gone.
    drop(p);
    w3.done();
    // Both ends are gone.
    drop(c);
    w4.done();
    r2.done();
}

// ------------------------------------------------------------------ disconnection

#[test]
fn consumer_drains_what_was_completed_after_producer_is_gone() {
    let (p, c) = Builder::new()
        .with_size(3)
        .with_init_template(0u8)
        .build();
    for i in 1..=3u8 {
        let mut wt = p.get_write_token().unwrap();
        wt.buf = i;
        wt.done();
    }
    drop(p);
    for i in 1..=3u8 {
        let rt = c.get_read_token().unwrap();
        assert_eq!(rt.buf, i);
        rt.done();
    }
    assert_eq!(c.get_read_token().err(), Some(Disconnected));
}

#[test]
fn producer_fails_after_consumer_is_gone_even_with_buffers_left() {
    let (p, c) = Builder::new()
        .with_size(2)
        .with_init_template(vec![0u8; 1000])
        .build();
    let wt = p.get_write_token().unwrap();
    drop(c);
    assert!(wt.buf.len() == 1000);
    wt.done();
    // One seeded buffer is still queued, but its place cannot be reserved.
    assert_eq!(p.get_write_token().err(), Some(Disconnected));
    // Now nothing is queued and the sending end is gone.
    assert_eq!(p.get_write_token().err(), Some(Disconnected));
}

// ------------------------------------------------------------- the steps by hand

#[test]
fn take_tells_the_three_outcomes_apart() {
    let (tx_stream, rx_stream) = channel::<Receiver<u8>>();

    let (tx, rx) = channel();
    tx_stream.send(rx).unwrap();
    tx.send(5).unwrap();
    assert!(matches!(take(&rx_stream), Taken::Buffer(5)));

    let (tx, rx) = channel::<u8>();
    tx_stream.send(rx).unwrap();
    drop(tx);
    assert!(matches!(take(&rx_stream), Taken::Broken));

    drop(tx_stream);
    assert!(matches!(take(&rx_stream), Taken::Closed));
}

#[test]
fn take_follows_the_order_of_the_slots_not_of_their_fulfilment() {
    let (tx_stream, rx_stream) = channel::<Receiver<u8>>();
    let (tx1, rx1) = channel();
    let (tx2, rx2) = channel();
    tx_stream.send(rx1).unwrap();
    tx_stream.send(rx2).unwrap();
    tx2.send(2).unwrap();
    tx1.send(1).unwrap();
    assert!(matches!(take(&rx_stream), Taken::Buffer(1)));
    assert!(matches!(take(&rx_stream), Taken::Buffer(2)));
}

#[test]
fn producer_issue_depends_on_the_reservation() {
    let (tx, rx) = channel();
    let token = Producer::issue(9u8, tx, true).unwrap();
    assert_eq!(token.buf, 9);
    token.done();
    assert_eq!(rx.recv(), Ok(9));

    let (tx, rx) = channel();
    assert_eq!(Producer::issue(9u8, tx, false).err(), Some(Disconnected));
    // The reserved slot was given up with the buffer.
    assert!(rx.recv().is_err());
}

#[test]
fn producer_grant_issues_a_token_only_for_a_buffer() {
    let (tx_empty, rx_empty) = channel::<Receiver<u8>>();
    let (tx_full, rx_full) = channel::<Receiver<u8>>();
    let p = Producer::new(rx_empty, tx_full);

    assert_eq!(p.grant(Taken::Closed).err(), Some(Disconnected));
    assert_eq!(p.grant(Taken::Broken).err(), Some(Disconnected));
    // No place was reserved for either.
    assert_eq!(rx_full.try_recv().err(), Some(TryRecvError::Empty));

    let token = p.grant(Taken::Buffer(4)).unwrap();
    assert_eq!(token.buf, 4);
    let slot = rx_full.try_recv().unwrap();
    token.done();
    assert_eq!(slot.recv(), Ok(4));

    drop(rx_full);
    assert_eq!(p.grant(Taken::Buffer(4)).err(), Some(Disconnected));
    drop(tx_empty);
}

#[test]
fn consumer_grant_issues_a_token_for_every_buffer() {
    let (tx_empty, rx_empty) = channel::<Receiver<u8>>();
    let (tx_full, rx_full) = channel::<Receiver<u8>>();
    let c = Consumer::new(rx_full, tx_empty);

    assert_eq!(c.grant(Taken::Closed).err(), Some(Disconnected));
    assert_eq!(c.grant(Taken::Broken).err(), Some(Disconnected));
    assert_eq!(rx_empty.try_recv().err(), Some(TryRecvError::Empty));

    let token = c.grant(Taken::Buffer(4)).unwrap();
    assert_eq!(token.buf, 4);
    let slot = rx_empty.try_recv().unwrap();
    token.done();
    assert_eq!(slot.recv(), Ok(4));

    // With the producer gone the token is issued all the same.
    drop(rx_empty);
    let token = c.grant(Taken::Buffer(6)).unwrap();
    assert_eq!(token.buf, 6);
    token.done();
    drop(tx_full);
}

#[test]
fn taken_is_told_from_the_answers_of_the_two_receives() {
    assert!(matches!(Taken::<u8>::from_received(Err(RecvError)), Taken::Closed));
    assert!(matches!(Taken::<u8>::from_received(Ok(Err(RecvError))), Taken::Broken));
    assert!(matches!(Taken::from_received(Ok(Ok(7u8))), Taken::Buffer(7)));
}
