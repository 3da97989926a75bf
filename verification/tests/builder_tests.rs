use cyclic_pipe::{BuildError, Builder};

#[test]
fn builder_build_with_init_template() {
    let builder = Builder::new()
        .with_size(2)
        .with_init_template(vec![0; 1000]);
    let (_p, _c) = builder.build();
}

#[test]
#[should_panic(expected = "init_template is not set")]
fn builder_build_without_init_template() {
    let builder = Builder::<Vec<i32>>::new().with_size(2);
    let _ = builder.build();
}

#[test]
fn builder_build_size() {
    let pipe_size = 10;
    let builder = Builder::new()
        .with_size(10)
        .with_init_template(vec![0; 1000]);
    let (p, c) = builder.build();
    let mut concurent_write_tokens = Vec::with_capacity(pipe_size);
    let mut concurent_read_tokens = Vec::with_capacity(pipe_size);
    for _i in 0..pipe_size {
        concurent_write_tokens.push(p.get_write_token().unwrap());
    }
    for wt in concurent_write_tokens {
        wt.done();
        concurent_read_tokens.push(c.get_read_token().unwrap());
    }
    for rt in concurent_read_tokens {
        rt.done();
    }
}

#[test]
fn try_build_reports_missing_template() {
    let r = Builder::<Vec<i32>>::new().with_size(2).try_build();
    assert_eq!(r.err(), Some(BuildError::TemplateMissing));
}

#[test]
fn try_build_reports_missing_template_before_zero_size() {
    let r = Builder::<Vec<i32>>::new().with_size(0).try_build();
    assert_eq!(r.err(), Some(BuildError::TemplateMissing));
}

#[test]
fn try_build_rejects_zero_size() {
    let r = Builder::new()
        .with_size(0)
        .with_init_template(7u8)
        .try_build();
    assert_eq!(r.err(), Some(BuildError::ZeroCapacity));
}

#[test]
fn try_build_builds_a_working_pipe() {
    let (p, c) = Builder::new()
        .with_size(3)
        .with_init_template(7u8)
        .try_build()
        .unwrap();
    let wt = p.get_write_token().unwrap();
    assert_eq!(wt.buf, 7);
    wt.done();
    assert_eq!(c.get_read_token().unwrap().buf, 7);
}

#[test]
fn default_size_is_one() {
    let (p, c) = Builder::new().with_init_template(1u32).build();
    let mut wt = p.get_write_token().unwrap();
    wt.buf = 2;
    wt.done();
    let rt = c.get_read_token().unwrap();
    assert_eq!(rt.buf, 2);
    rt.done();
    // The one buffer has come back: had the pipe held none, this would wait.
    assert_eq!(p.get_write_token().unwrap().buf, 2);
}

#[test]
fn last_setting_wins() {
    let (p, _c) = Builder::new()
        .with_init_template(1u32)
        .with_size(5)
        .with_init_template(9u32)
        .with_size(2)
        .build();
    let w1 = p.get_write_token().unwrap();
    let w2 = p.get_write_token().unwrap();
    assert_eq!(w1.buf, 9);
    assert_eq!(w2.buf, 9);
}

#[test]
fn a_pipe_of_one_holds_one_buffer_and_no_spare() {
    let (p, c) = Builder::new()
        .with_size(1)
        .with_init_template("".to_string())
        .build();
    let w = p.get_write_token().unwrap();
    assert_eq!(w.buf, "");
    w.done();
    drop(c.get_read_token().unwrap());
    // The one buffer is lost with the read token, and none was seeded beside it.
    assert!(p.get_write_token().is_err());
}

#[test]
fn a_pipe_of_two_holds_a_second_buffer_and_no_third() {
    let (p, c) = Builder::new()
        .with_size(2)
        .with_init_template("seed".to_string())
        .build();
    let mut w = p.get_write_token().unwrap();
    w.buf = "first".to_string();
    w.done();
    drop(c.get_read_token().unwrap());
    // The second seeded buffer is still there, as it was seeded.
    let w = p.get_write_token().unwrap();
    assert_eq!(w.buf, "seed");
    // Behind it comes the slot of the dropped read token.
    assert!(p.get_write_token().is_err());
    drop(w);
}

#[test]
fn every_seeded_buffer_equals_the_template_and_the_full_stream_starts_empty() {
    let n = 5;
    let (p, c) = Builder::new()
        .with_size(n)
        .with_init_template(vec![1u8, 2, 3])
        .build();
    let mut tokens = Vec::new();
    for _ in 0..n {
        let w = p.get_write_token().unwrap();
        assert_eq!(w.buf, vec![1, 2, 3]);
        tokens.push(w);
    }
    // Nothing was queued for the consumer by the builder: with the producer
    // and its tokens gone, the first read finds the first write token's slot
    // abandoned, not a buffer.
    drop(tokens);
    drop(p);
    assert!(c.get_read_token().is_err());
}
