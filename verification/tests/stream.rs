use libutp_rs::{DataQueue, Poll, UtpConnector, UtpReader};

#[test]
fn chunks_are_read_as_one_stream() {
    let mut q = DataQueue::new();
    q.push(vec![1, 2, 3]);
    q.push(vec![]);
    q.push(vec![4, 5]);
    assert_eq!(q.len(), 3);
    let mut buf = [0u8; 2];
    assert_eq!(q.read(&mut buf), 2);
    assert_eq!(buf, [1, 2]);
    assert_eq!(q.len(), 2);
    let mut buf = [9u8; 8];
    assert_eq!(q.read(&mut buf), 3);
    assert_eq!(buf, [3, 4, 5, 9, 9, 9, 9, 9]);
    assert!(q.is_empty());
    assert_eq!(q.read(&mut buf), 0);
}

#[test]
fn a_full_buffer_leaves_whole_chunks_where_they_are() {
    let mut q = DataQueue::new();
    q.push(vec![1, 2]);
    q.push(vec![3]);
    let mut buf = [0u8; 2];
    assert_eq!(q.read(&mut buf), 2);
    assert_eq!(q.len(), 1);
    assert!(!q.is_empty());
    assert_eq!(q.read(&mut [0u8; 0]), 0);
    assert_eq!(q.len(), 1);
    assert_eq!(q.read(&mut buf), 1);
    assert_eq!(buf, [3, 2]);
}

#[test]
fn nothing_is_lost_whatever_the_portions() {
    let mut q = DataQueue::new();
    let mut sent: Vec<u8> = Vec::new();
    let mut got: Vec<u8> = Vec::new();
    for i in 0..200usize {
        let chunk: Vec<u8> = (0..i % 13).map(|k| (i * 7 + k) as u8).collect();
        sent.extend_from_slice(&chunk);
        q.push(chunk);
        let mut buf = vec![0u8; i % 5];
        let n = q.read(&mut buf);
        got.extend_from_slice(&buf[..n]);
    }
    loop {
        let mut buf = [0u8; 17];
        let n = q.read(&mut buf);
        if n == 0 {
            break;
        }
        got.extend_from_slice(&buf[..n]);
    }
    assert_eq!(sent, got);
}

#[test]
fn a_transfer_in_blocks_arrives() {
    let mut reader: UtpReader<u32> = UtpReader::new();
    for _ in 0..100 {
        for part in [1u8; 1000].chunks(300) {
            reader.push(part);
        }
        let mut buf = [0u8; 1000];
        let mut have = 0;
        while have < 1000 {
            match reader.poll_read(0, &mut buf[have..]) {
                Poll::Ready(n) => have += n,
                Poll::Pending => panic!("all bytes are there"),
            }
        }
        assert_eq!(&buf[..], &[1u8; 1000][..]);
    }
    assert!(matches!(reader.poll_read(0, &mut [0u8; 1]), Poll::Pending));
}

#[test]
fn a_waiting_reader_is_woken_by_bytes() {
    let mut reader: UtpReader<u32> = UtpReader::new();
    let mut buf = [0u8; 4];
    assert!(matches!(reader.poll_read(7, &mut buf), Poll::Pending));
    assert!(matches!(reader.poll_read(8, &mut buf), Poll::Pending));
    assert_eq!(reader.push(&[1, 2]), Some(8));
    assert_eq!(reader.push(&[3]), None);
    assert_eq!(reader.poll_read(9, &mut buf), Poll::Ready(3));
    assert_eq!(buf, [1, 2, 3, 0]);
    assert_eq!(reader.wake(), None);
}

#[test]
fn the_end_of_the_stream_reads_as_zero_bytes() {
    let mut reader: UtpReader<u32> = UtpReader::new();
    let mut buf = [0u8; 4];
    reader.push(&[5]);
    assert!(!reader.eof());
    reader.set_eof();
    assert!(reader.eof());
    assert_eq!(reader.poll_read(1, &mut buf), Poll::Ready(1));
    assert_eq!(reader.poll_read(1, &mut buf), Poll::Ready(0));
}

#[test]
fn the_end_of_the_stream_wakes_no_one() {
    let mut reader: UtpReader<u32> = UtpReader::new();
    assert!(matches!(reader.poll_read(1, &mut [0u8; 4]), Poll::Pending));
    reader.set_eof();
    assert_eq!(reader.wake(), Some(1));
}

#[test]
fn a_connection_is_waited_for() {
    let mut c: UtpConnector<u32> = UtpConnector::new();
    assert!(matches!(c.poll_connected(1), Poll::Pending));
    assert!(matches!(c.poll_connected(2), Poll::Pending));
    assert_eq!(c.set_connected(), Some(2));
    assert!(matches!(c.poll_connected(3), Poll::Ready(())));
    assert_eq!(c.wake(), None);
}
