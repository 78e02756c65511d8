use pico_usb_echo::echo::{greeting, Action, EchoHandler, Phase, PACKET_SIZE};

/// What one invocation did to the outside world.
struct Outcome {
    greeted: bool,
    displayed: Vec<u8>,
    write_calls: Vec<Vec<u8>>,
}

/// Drives one invocation the way the interrupt routine does, with a device
/// poll answer, a read outcome and a queue of write answers (each either the
/// number of bytes the host accepts, or `None` for a failed write).
fn invoke(
    h: &mut EchoHandler,
    active: bool,
    read: Result<&[u8], ()>,
    mut writes: Vec<Option<usize>>,
) -> Outcome {
    let mut out = Outcome { greeted: false, displayed: Vec::new(), write_calls: Vec::new() };
    writes.reverse();
    let mut action = h.begin();
    loop {
        action = match action {
            Action::SendGreeting => {
                out.greeted = true;
                h.greeting_sent()
            }
            Action::Poll => h.polled(active),
            Action::Read => {
                let mut buf = [0u8; 64];
                let r = match read {
                    Ok(bytes) => {
                        buf[..bytes.len()].copy_from_slice(bytes);
                        Ok(bytes.len())
                    }
                    Err(()) => Err(()),
                };
                h.received(buf, r)
            }
            Action::Display => {
                out.displayed.extend_from_slice(&h.buffer()[..h.count()]);
                h.displayed()
            }
            Action::Write => {
                let pending = h.buffer()[h.sent()..h.count()].to_vec();
                out.write_calls.push(pending.clone());
                let answer = writes.pop().expect("the loop asked for more writes than expected");
                match answer {
                    Some(n) => h.wrote(Ok(n.min(pending.len()))),
                    None => h.wrote(Err(())),
                }
            }
            Action::Finish => break,
        };
    }
    assert!(writes.is_empty(), "the loop stopped before using every write answer");
    assert_eq!(h.phase(), Phase::Idle);
    out
}

#[test]
fn greeting_is_hello_world() {
    assert_eq!(&greeting(), b"Hello, World!\r\n");
    assert_eq!(PACKET_SIZE, 64);
}

#[test]
fn greeting_written_once_over_many_invocations() {
    let mut h = EchoHandler::new();
    assert!(!h.said_hello());
    let first = invoke(&mut h, false, Ok(b""), vec![]);
    assert!(first.greeted);
    assert!(h.said_hello());
    for _ in 0..5 {
        let later = invoke(&mut h, true, Ok(b"x"), vec![Some(1)]);
        assert!(!later.greeted);
        assert!(h.said_hello());
    }
}

#[test]
fn greeting_comes_before_polling() {
    let mut h = EchoHandler::new();
    assert_eq!(h.begin(), Action::SendGreeting);
    assert!(h.said_hello());
    assert_eq!(h.phase(), Phase::Greeting);
    assert_eq!(h.greeting_sent(), Action::Poll);
    assert_eq!(h.polled(false), Action::Finish);
    assert_eq!(h.begin(), Action::Poll);
}

#[test]
fn end_to_end_hi_there() {
    let mut h = EchoHandler::new();
    let out = invoke(&mut h, true, Ok(b"Hi There\n"), vec![Some(9)]);
    assert!(out.greeted);
    assert_eq!(out.displayed, b"Hi There\n".to_vec());
    assert_eq!(out.write_calls, vec![b"hi there\n".to_vec()]);
    assert!(h.said_hello());

    let again = invoke(&mut h, true, Ok(b"Hi There\n"), vec![Some(9)]);
    assert!(!again.greeted);
    assert_eq!(again.displayed, b"Hi There\n".to_vec());
    assert_eq!(again.write_calls, vec![b"hi there\n".to_vec()]);
}

#[test]
fn display_gets_untransformed_bytes() {
    let mut h = EchoHandler::new();
    let input: &[u8] = b"ABC xyz 123 [@`{";
    let out = invoke(&mut h, true, Ok(input), vec![Some(input.len())]);
    assert_eq!(out.displayed, input.to_vec());
    assert_eq!(out.write_calls, vec![b"abc xyz 123 [@`{".to_vec()]);
}

#[test]
fn every_byte_folds_by_the_ascii_rule() {
    let all: Vec<u8> = (0u8..=255).collect();
    for chunk in all.chunks(64) {
        let mut h = EchoHandler::new();
        let out = invoke(&mut h, true, Ok(chunk), vec![Some(chunk.len())]);
        assert_eq!(out.displayed, chunk.to_vec());
        let echoed = &out.write_calls[0];
        for (i, &b) in chunk.iter().enumerate() {
            let expected = if (b'A'..=b'Z').contains(&b) { b + 32 } else { b };
            assert_eq!(echoed[i], expected);
        }
    }
}

#[test]
fn full_packet_echoed() {
    let input = [b'Q'; 64];
    let mut h = EchoHandler::new();
    let out = invoke(&mut h, true, Ok(&input), vec![Some(64)]);
    assert_eq!(out.displayed.len(), 64);
    assert_eq!(out.write_calls, vec![vec![b'q'; 64]]);
}

#[test]
fn partial_writes_send_the_rest() {
    let mut h = EchoHandler::new();
    let out = invoke(&mut h, true, Ok(b"Hi There\n"), vec![Some(4), Some(3), Some(2)]);
    assert_eq!(
        out.write_calls,
        vec![b"hi there\n".to_vec(), b"here\n".to_vec(), b"e\n".to_vec()]
    );
    assert_eq!(h.sent(), 9);
    assert_eq!(h.count(), 9);
}

#[test]
fn zero_length_write_is_retried() {
    let mut h = EchoHandler::new();
    let out = invoke(&mut h, true, Ok(b"AB"), vec![Some(0), Some(2)]);
    assert_eq!(out.write_calls, vec![b"ab".to_vec(), b"ab".to_vec()]);
}

#[test]
fn write_error_stops_the_loop() {
    let mut h = EchoHandler::new();
    let out = invoke(&mut h, true, Ok(b"Hi There\n"), vec![Some(4), None]);
    assert_eq!(out.write_calls, vec![b"hi there\n".to_vec(), b"here\n".to_vec()]);
    assert_eq!(h.sent(), 4);
}

#[test]
fn write_error_on_first_attempt() {
    let mut h = EchoHandler::new();
    let out = invoke(&mut h, true, Ok(b"Z"), vec![None]);
    assert_eq!(out.displayed, b"Z".to_vec());
    assert_eq!(out.write_calls, vec![b"z".to_vec()]);
    assert_eq!(h.sent(), 0);
}

#[test]
fn idle_poll_does_nothing() {
    let mut h = EchoHandler::new();
    let _ = invoke(&mut h, false, Ok(b""), vec![]);
    let out = invoke(&mut h, false, Ok(b"ignored"), vec![]);
    assert!(out.displayed.is_empty());
    assert!(out.write_calls.is_empty());
}

#[test]
fn zero_byte_read_does_nothing() {
    let mut h = EchoHandler::new();
    let out = invoke(&mut h, true, Ok(b""), vec![]);
    assert!(out.greeted);
    assert!(out.displayed.is_empty());
    assert!(out.write_calls.is_empty());
    assert_eq!(h.count(), 0);
}

#[test]
fn read_error_does_nothing() {
    let mut h = EchoHandler::new();
    let out = invoke(&mut h, true, Err(()), vec![]);
    assert!(out.displayed.is_empty());
    assert!(out.write_calls.is_empty());
}

#[test]
fn packet_does_not_survive_the_invocation() {
    let mut h = EchoHandler::new();
    let _ = invoke(&mut h, true, Ok(b"HELLO"), vec![Some(5)]);
    assert_eq!(h.begin(), Action::Poll);
    assert_eq!(h.count(), 0);
    assert_eq!(h.sent(), 0);
    assert_eq!(h.buffer(), &[0u8; 64]);
}
