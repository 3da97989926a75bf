use cyclic_pipe::Token;
use std::sync::mpsc;

#[test]
fn done_sends_value() {
    let (tx, rx) = mpsc::channel();
    let token = Token::new("hello", tx);
    assert!(rx.try_recv().is_err(), "token is not done yet");
    token.done();
    assert_eq!(rx.recv().unwrap(), "hello");
}

#[test]
fn token_drop_without_done() {
    let (tx, rx) = mpsc::channel();

    {
        let _token = Token::new("hello", tx);
        // token is dropped here without calling done()
    }

    assert!(
        rx.recv().is_err(),
        "The channel has no senders left, so recv() will return an error."
    );
}

#[test]
fn done_sends_the_buffer_as_last_written() {
    let (tx, rx) = mpsc::channel();
    let mut token = Token::new(vec![0u8; 4], tx);
    token.buf[2] = 9;
    *token.buf_mut() = vec![1, 2, 3];
    assert_eq!(token.buf_ref(), &vec![1, 2, 3]);
    token.buf.push(4);
    token.done();
    assert_eq!(rx.recv().unwrap(), vec![1, 2, 3, 4]);
}

#[test]
fn done_sends_exactly_once() {
    let (tx, rx) = mpsc::channel();
    Token::new(5u8, tx).done();
    assert_eq!(rx.recv(), Ok(5));
    assert!(rx.recv().is_err());
}

#[test]
fn done_after_receiver_is_gone_returns() {
    let (tx, rx) = mpsc::channel();
    let token = Token::new(String::from("late"), tx);
    drop(rx);
    token.done();
}

#[test]
fn try_done_delivers_while_the_slot_is_open() {
    let (tx, rx) = mpsc::channel();
    let mut token = Token::new(vec![1u8, 2], tx);
    token.buf.push(3);
    assert_eq!(token.try_done(), Ok(()));
    assert_eq!(rx.recv().unwrap(), vec![1, 2, 3]);
    assert!(rx.recv().is_err());
}

#[test]
fn try_done_hands_the_buffer_back_when_the_slot_is_closed() {
    let (tx, rx) = mpsc::channel();
    let mut token = Token::new(String::from("un"), tx);
    drop(rx);
    token.buf.push_str("sent");
    assert_eq!(token.try_done(), Err(String::from("unsent")));
}

#[test]
fn try_done_tells_a_write_token_that_the_consumer_is_gone() {
    let (p, c) = cyclic_pipe::Builder::new()
        .with_size(2)
        .with_init_template(0u8)
        .build();
    let mut delivered = p.get_write_token().unwrap();
    let mut ignored = p.get_write_token().unwrap();
    delivered.buf = 1;
    ignored.buf = 2;
    assert_eq!(delivered.try_done(), Ok(()));
    drop(c);
    assert_eq!(ignored.try_done(), Err(2));
}
