use async_html_rewriter::context::Context;
use async_html_rewriter::reader::{ByteReader, ReadStep};
use async_html_rewriter::sink::RelaySink;
use async_html_rewriter::stream::{FrameStep, FrameStream};
use async_html_rewriter::ByteQueue;
use atomic_waker::AtomicWaker;
use bytes::Bytes;
use std::sync::atomic::{AtomicUsize, Ordering};
use std::sync::Arc;
use std::task::{Wake, Waker};

struct Counter(AtomicUsize);

impl Wake for Counter {
    fn wake(self: Arc<Self>) {
        self.0.fetch_add(1, Ordering::SeqCst);
    }
}

fn counting_waker() -> (Arc<Counter>, Waker) {
    let counter = Arc::new(Counter(AtomicUsize::new(0)));
    (counter.clone(), Waker::from(counter))
}

/// Reads until end of data and appends what was read to `output`; the
/// number of bytes read, or an error if the read would have suspended.
fn read_to_string(
    reader: &mut ByteReader,
    context: &mut Context,
    output: &mut String,
) -> Result<usize, ()> {
    let bytes = read_to_end(reader, context).ok_or(())?;
    let text = String::from_utf8(bytes).map_err(|_| ())?;
    output.push_str(&text);
    Ok(text.len())
}

fn read_to_end(reader: &mut ByteReader, context: &mut Context) -> Option<Vec<u8>> {
    let mut output = Vec::new();
    loop {
        match reader.poll_read(context, Waker::noop()) {
            ReadStep::Data(bytes) => output.extend_from_slice(&bytes),
            ReadStep::End => return Some(output),
            ReadStep::Pending => return None,
        }
    }
}

#[test]
fn handle_chunk() {
    let input: Vec<&[u8]> = vec![b"chunk[0]", b"chunk[1]", b"", b"<invalid>"];
    let expected: Vec<u8> = b"chunk[0]chunk[1]".into();

    let mut context = Context::default();
    let mut sink = RelaySink::new();

    for chunk in input {
        sink.handle_chunk(&mut context, chunk);
        if context.is_done() {
            break;
        }
    }

    let mut output = Vec::new();
    while let Some(bytes) = context.pop() {
        output.extend_from_slice(&bytes);
    }

    assert_eq!(output, expected);
}

#[test]
fn async_read_impl() {
    let input = "ABC";

    let queue = ByteQueue::new();
    queue.push(Bytes::from(input));

    let mut context = Context::new(queue, AtomicWaker::default(), true);
    let mut reader = ByteReader::new();

    let mut output = String::new();
    let bytes_read = read_to_string(&mut reader, &mut context, &mut output);

    assert!(bytes_read.is_ok());
    assert_eq!(bytes_read.unwrap(), output.len());
    assert_eq!(output, input);
}

#[test]
fn stream_impl() {
    let input = "ABC";

    let queue = ByteQueue::new();
    queue.push(Bytes::from(input));

    let mut context = Context::new(queue, AtomicWaker::new(), true);
    let mut stream = FrameStream::new();

    let mut output: Vec<String> = Vec::new();
    loop {
        match stream.poll_next(&mut context, Waker::noop()) {
            FrameStep::Frame(frame) => {
                let bytes = match frame.into_data() {
                    Ok(bytes) => bytes,
                    Err(_) => panic!("Expected frames to hold valid data"),
                };
                let text = std::str::from_utf8(&bytes).expect("Expected frame data to be valid utf8");
                output.push(text.to_string());
            }
            FrameStep::End => break,
            FrameStep::Pending => panic!("Expected stream to contain valid frames"),
        }
    }

    assert_eq!(output.len(), 1);
    assert_eq!(output.first().unwrap(), input);
}

#[test]
fn fresh_context_is_empty_and_open() {
    let mut context = Context::default();
    assert!(!context.is_done());
    assert!(context.queue().is_empty());
    assert!(context.pop().is_none());
}

#[test]
fn context_new_takes_its_parts_as_they_are() {
    let queue = ByteQueue::new();
    queue.push(Bytes::from_static(b"one"));
    queue.push(Bytes::from_static(b"two"));
    let mut context = Context::new(queue, AtomicWaker::new(), false);
    assert!(!context.is_done());
    assert_eq!(context.queue().len(), 2);
    assert_eq!(context.pop().unwrap(), Bytes::from_static(b"one"));
    assert_eq!(context.pop().unwrap(), Bytes::from_static(b"two"));
    assert!(context.pop().is_none());
}

#[test]
fn push_and_pop_keep_the_order() {
    let mut context = Context::default();
    context.push(Bytes::from_static(b"a"));
    context.push(Bytes::from_static(b"bc"));
    context.push(Bytes::from_static(b"def"));
    assert_eq!(context.queue().len(), 3);
    assert_eq!(&context.pop().unwrap()[..], b"a");
    context.push(Bytes::from_static(b"g"));
    assert_eq!(&context.pop().unwrap()[..], b"bc");
    assert_eq!(&context.pop().unwrap()[..], b"def");
    assert_eq!(&context.pop().unwrap()[..], b"g");
    assert!(context.pop().is_none());
    assert!(context.pop().is_none());
}

#[test]
fn set_done_is_idempotent_and_keeps_the_queue() {
    let mut context = Context::default();
    context.push(Bytes::from_static(b"kept"));
    context.set_done();
    assert!(context.is_done());
    context.set_done();
    assert!(context.is_done());
    assert_eq!(&context.pop().unwrap()[..], b"kept");
    assert!(context.is_done());
}

#[test]
fn sink_copies_the_chunk() {
    let mut context = Context::default();
    let mut sink = RelaySink::new();
    let mut buffer = b"first".to_vec();
    sink.handle_chunk(&mut context, &buffer);
    buffer.copy_from_slice(b"XXXXX");
    sink.handle_chunk(&mut context, &buffer);
    assert_eq!(&context.pop().unwrap()[..], b"first");
    assert_eq!(&context.pop().unwrap()[..], b"XXXXX");
}

#[test]
fn sink_stores_no_empty_chunk() {
    let mut context = Context::default();
    let mut sink = RelaySink::new();
    sink.handle_chunk(&mut context, b"");
    assert!(context.is_done());
    assert!(context.queue().is_empty());
}

#[test]
fn sink_still_queues_after_an_empty_chunk() {
    let mut context = Context::default();
    let mut sink = RelaySink::new();
    sink.handle_chunk(&mut context, b"");
    sink.handle_chunk(&mut context, b"late");
    assert!(context.is_done());
    assert_eq!(&context.pop().unwrap()[..], b"late");
}

#[test]
fn close_marks_complete() {
    let mut context = Context::default();
    let mut sink = RelaySink::new();
    sink.handle_chunk(&mut context, b"data");
    assert!(!context.is_done());
    sink.close(&mut context);
    assert!(context.is_done());
    assert_eq!(context.queue().len(), 1);
}

#[test]
fn read_on_open_empty_channel_is_pending() {
    let mut context = Context::default();
    let mut reader = ByteReader::new();
    assert!(matches!(reader.poll_read(&mut context, Waker::noop()), ReadStep::Pending));
    assert!(!context.is_done());
}

#[test]
fn pending_reader_is_woken_by_push() {
    let (counter, waker) = counting_waker();
    let mut context = Context::default();
    let mut reader = ByteReader::new();
    assert!(matches!(reader.poll_read(&mut context, &waker), ReadStep::Pending));
    assert_eq!(counter.0.load(Ordering::SeqCst), 0);
    RelaySink::new().handle_chunk(&mut context, b"x");
    assert_eq!(counter.0.load(Ordering::SeqCst), 1);
    match reader.poll_read(&mut context, &waker) {
        ReadStep::Data(bytes) => assert_eq!(&bytes[..], b"x"),
        _ => panic!("expected data"),
    }
}

#[test]
fn pending_reader_is_woken_by_close() {
    let (counter, waker) = counting_waker();
    let mut context = Context::default();
    let mut reader = ByteReader::new();
    assert!(matches!(reader.poll_read(&mut context, &waker), ReadStep::Pending));
    RelaySink::new().close(&mut context);
    assert_eq!(counter.0.load(Ordering::SeqCst), 1);
    assert!(matches!(reader.poll_read(&mut context, &waker), ReadStep::End));
}

#[test]
fn wake_empties_the_slot() {
    let (counter, waker) = counting_waker();
    let mut context = Context::default();
    context.wake();
    assert_eq!(counter.0.load(Ordering::SeqCst), 0);
    context.register_waker(&waker);
    context.wake();
    assert_eq!(counter.0.load(Ordering::SeqCst), 1);
    context.wake();
    assert_eq!(counter.0.load(Ordering::SeqCst), 1);
}

#[test]
fn later_registration_replaces_the_earlier() {
    let (first, first_waker) = counting_waker();
    let (second, second_waker) = counting_waker();
    let mut context = Context::default();
    context.register_waker(&first_waker);
    context.register_waker(&second_waker);
    context.wake();
    assert_eq!(first.0.load(Ordering::SeqCst), 0);
    assert_eq!(second.0.load(Ordering::SeqCst), 1);
}

#[test]
fn end_of_data_persists() {
    let mut context = Context::default();
    let mut reader = ByteReader::new();
    RelaySink::new().close(&mut context);
    for _ in 0..5 {
        assert!(matches!(reader.poll_read(&mut context, Waker::noop()), ReadStep::End));
    }
    let mut stream = FrameStream::new();
    for _ in 0..5 {
        assert!(matches!(stream.poll_next(&mut context, Waker::noop()), FrameStep::End));
        assert!(matches!(stream.poll_frame(&mut context, Waker::noop()), FrameStep::End));
    }
}

#[test]
fn queued_chunks_survive_close() {
    let mut context = Context::default();
    let mut sink = RelaySink::new();
    let mut reader = ByteReader::new();
    sink.handle_chunk(&mut context, b"one");
    sink.handle_chunk(&mut context, b"two");
    sink.close(&mut context);
    assert_eq!(read_to_end(&mut reader, &mut context), Some(b"onetwo".to_vec()));
}

#[test]
fn read_delivers_whole_chunks() {
    let mut context = Context::default();
    let mut sink = RelaySink::new();
    let mut reader = ByteReader::new();
    let big = vec![7u8; 10_000];
    sink.handle_chunk(&mut context, &big);
    sink.handle_chunk(&mut context, b"z");
    match reader.poll_read(&mut context, Waker::noop()) {
        ReadStep::Data(bytes) => assert_eq!(&bytes[..], &big[..]),
        _ => panic!("expected data"),
    }
    match reader.poll_read(&mut context, Waker::noop()) {
        ReadStep::Data(bytes) => assert_eq!(&bytes[..], b"z"),
        _ => panic!("expected data"),
    }
    assert!(matches!(reader.poll_read(&mut context, Waker::noop()), ReadStep::Pending));
}

#[test]
fn frames_wrap_one_chunk_each() {
    let mut context = Context::default();
    let mut sink = RelaySink::new();
    let mut stream = FrameStream::new();
    assert!(matches!(stream.poll_next(&mut context, Waker::noop()), FrameStep::Pending));
    sink.handle_chunk(&mut context, b"alpha");
    sink.handle_chunk(&mut context, b"beta");
    match stream.poll_next(&mut context, Waker::noop()) {
        FrameStep::Frame(frame) => {
            assert!(frame.is_data());
            assert_eq!(frame.into_data().ok().unwrap(), Bytes::from_static(b"alpha"));
        }
        _ => panic!("expected a frame"),
    }
    match stream.poll_frame(&mut context, Waker::noop()) {
        FrameStep::Frame(frame) => {
            assert_eq!(frame.into_data().ok().unwrap(), Bytes::from_static(b"beta"));
        }
        _ => panic!("expected a frame"),
    }
    assert!(matches!(stream.poll_frame(&mut context, Waker::noop()), FrameStep::Pending));
    sink.close(&mut context);
    assert!(matches!(stream.poll_frame(&mut context, Waker::noop()), FrameStep::End));
}

#[test]
fn interleaving_does_not_change_the_output() {
    let chunks: Vec<&[u8]> = vec![b"<p>", b"one", b"", b"two", b"</p>"];
    let expected = b"<p>onetwo</p>".to_vec();

    // The consumer starts after the producer has finished.
    let mut context = Context::default();
    let mut sink = RelaySink::new();
    let mut reader = ByteReader::new();
    for chunk in &chunks {
        sink.handle_chunk(&mut context, chunk);
    }
    sink.close(&mut context);
    assert_eq!(read_to_end(&mut reader, &mut context), Some(expected.clone()));

    // The consumer reads after every emission, and once before the first.
    let mut context = Context::default();
    let mut output = Vec::new();
    assert!(matches!(reader.poll_read(&mut context, Waker::noop()), ReadStep::Pending));
    for chunk in &chunks {
        sink.handle_chunk(&mut context, chunk);
        if let ReadStep::Data(bytes) = reader.poll_read(&mut context, Waker::noop()) {
            output.extend_from_slice(&bytes);
        }
    }
    sink.close(&mut context);
    output.extend_from_slice(&read_to_end(&mut reader, &mut context).unwrap());
    assert_eq!(output, expected);

    // The consumer reads twice after every second emission.
    let mut context = Context::default();
    let mut output = Vec::new();
    for (i, chunk) in chunks.iter().enumerate() {
        sink.handle_chunk(&mut context, chunk);
        if i % 2 == 1 {
            for _ in 0..2 {
                if let ReadStep::Data(bytes) = reader.poll_read(&mut context, Waker::noop()) {
                    output.extend_from_slice(&bytes);
                }
            }
        }
    }
    sink.close(&mut context);
    output.extend_from_slice(&read_to_end(&mut reader, &mut context).unwrap());
    assert_eq!(output, expected);
}

#[test]
fn nothing_emitted_reads_as_end_at_once() {
    let mut context = Context::default();
    let mut reader = ByteReader::new();
    RelaySink::new().close(&mut context);
    assert!(matches!(reader.poll_read(&mut context, Waker::noop()), ReadStep::End));
}
