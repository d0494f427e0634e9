use std::pin::Pin;
use std::task::Poll;

use async_io_typed::{AsyncReadTyped, AsyncWriteTyped};
use futures_util::{Sink, Stream};
use interprocess::local_socket::tokio::{LocalSocketListener, LocalSocketStream, OwnedReadHalf, OwnedWriteHalf};
use interprocess_typed::error::Error;
use interprocess_typed::limits::default_size_limit;
use interprocess_typed::polled::{convert_next, convert_send, convert_status, Polled};

type Reader<T> = AsyncReadTyped<OwnedReadHalf, T>;
type Writer<T> = AsyncWriteTyped<OwnedWriteHalf, T>;

fn polled<T>(p: Poll<T>) -> Polled<T> {
    match p {
        Poll::Ready(v) => Polled::Ready(v),
        Poll::Pending => Polled::Pending,
    }
}

fn poll<T>(p: Polled<T>) -> Poll<T> {
    match p {
        Polled::Ready(v) => Poll::Ready(v),
        Polled::Pending => Poll::Pending,
    }
}

async fn receive<T>(reader: &mut Reader<T>) -> Option<Result<T, Error>>
where
    T: serde::Serialize + serde::de::DeserializeOwned + Unpin,
{
    futures_util::future::poll_fn(|cx| poll(convert_next(polled(Pin::new(&mut *reader).poll_next(cx))))).await
}

async fn send<T>(writer: &mut Writer<T>, item: T) -> Result<(), Error>
where
    T: serde::Serialize + serde::de::DeserializeOwned + Unpin,
{
    let ready = futures_util::future::poll_fn(|cx| poll(convert_status(polled(Pin::new(&mut *writer).poll_ready(cx))))).await;
    ready?;
    convert_send(Pin::new(&mut *writer).start_send(item))?;
    futures_util::future::poll_fn(|cx| poll(convert_status(polled(Pin::new(&mut *writer).poll_flush(cx))))).await
}

async fn connected_pair<T>(server_limit: u64, client_limit: u64) -> ((Reader<T>, Writer<T>), (Reader<T>, Writer<T>), tempfile::TempDir)
where
    T: serde::Serialize + serde::de::DeserializeOwned + Unpin,
{
    let dir = tempfile::tempdir().unwrap();
    let name = dir.path().join("ipc_socket");
    let listener = LocalSocketListener::bind(name.as_os_str()).unwrap();
    let client = tokio::spawn(LocalSocketStream::connect(name.into_os_string()));
    let server = listener.accept().await.unwrap();
    let client = client.await.unwrap().unwrap();
    let (sr, sw) = server.into_split();
    let (cr, cw) = client.into_split();
    (
        (Reader::new_with_limit(sr, server_limit), Writer::new_with_limit(sw, server_limit)),
        (Reader::new_with_limit(cr, client_limit), Writer::new_with_limit(cw, client_limit)),
        dir,
    )
}

fn run<F: std::future::Future>(f: F) -> F::Output {
    tokio::runtime::Builder::new_current_thread().enable_all().build().unwrap().block_on(f)
}

#[test]
fn message_arrives_through_the_conversions() {
    run(async {
        let limit = default_size_limit();
        let ((_sr, mut sw), (mut cr, _cw), _dir) = connected_pair::<Vec<u8>>(limit, limit).await;
        let message = "Hello, world!".as_bytes().to_vec();
        send(&mut sw, message.clone()).await.unwrap();
        match receive(&mut cr).await {
            Some(Ok(got)) => assert_eq!(got, message),
            other => panic!("expected the message, got {other:?}"),
        }
    });
}

#[test]
fn oversized_message_is_refused_by_the_sender() {
    run(async {
        let ((_sr, mut sw), (_cr, _cw), _dir) = connected_pair::<Vec<u8>>(4, 4).await;
        let result = send(&mut sw, "Hello, world!".as_bytes().to_vec()).await;
        // The encoder is bounded by the same limit, so it stops first.
        match result {
            Err(Error::Bincode(e)) => assert!(matches!(*e, bincode::ErrorKind::SizeLimit)),
            other => panic!("expected the encoder's size limit error, got {other:?}"),
        }
    });
}

#[test]
fn oversized_message_is_refused_by_the_receiver() {
    run(async {
        let ((_sr, mut sw), (mut cr, _cw), _dir) = connected_pair::<Vec<u8>>(1024, 100).await;
        send(&mut sw, vec![7u8; 300]).await.unwrap();
        let got = receive(&mut cr).await;
        assert!(matches!(got, Some(Err(Error::ReceivedMessageTooLarge))), "{got:?}");
    });
}

#[test]
fn closed_stream_ends() {
    run(async {
        let limit = default_size_limit();
        let ((_sr, mut sw), (mut cr, _cw), _dir) = connected_pair::<u32>(limit, limit).await;
        send(&mut sw, 42).await.unwrap();
        let closed = futures_util::future::poll_fn(|cx| poll(convert_status(polled(Pin::new(&mut sw).poll_close(cx))))).await;
        assert!(matches!(closed, Ok(())));
        assert!(matches!(receive(&mut cr).await, Some(Ok(42))));
        assert!(receive(&mut cr).await.is_none());
    });
}
