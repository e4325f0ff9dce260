use std::pin::Pin;
use std::task::{Context, Poll};

use http_body_util::{BodyExt, Empty};
use hyper::rt::{Read, Write};
use tokio::io::{AsyncRead, AsyncReadExt, AsyncWrite, AsyncWriteExt, ReadBuf};
use tokio::net::UnixStream;

use snapd::api::alias::{AliasStatus, Aliases, GetAliases};
use snapd::api::command::SnapCommand;
use snapd::api::json::JsonValue;
use snapd::api::parse_answer;
use snapd::client::build_request;
use snapd::connection::{close_outcome, Recycle, SnapdConnection, SnapdRequestBody};

const BODY: &str = r#"{"type":"sync","status-code":200,"result":{"snap":{"alias1":{"command":"snap.app","status":"auto","auto":"app"}}}}"#;

struct PairIo(UnixStream);

impl Read for PairIo {
    fn poll_read(
        mut self: Pin<&mut Self>,
        cx: &mut Context<'_>,
        mut buf: hyper::rt::ReadBufCursor<'_>,
    ) -> Poll<Result<(), std::io::Error>> {
        let mut local = vec![0u8; buf.remaining().min(8192)];
        let mut read_buf = ReadBuf::new(&mut local);
        match Pin::new(&mut self.0).poll_read(cx, &mut read_buf) {
            Poll::Ready(Ok(())) => {
                buf.put_slice(read_buf.filled());
                Poll::Ready(Ok(()))
            }
            Poll::Ready(Err(e)) => Poll::Ready(Err(e)),
            Poll::Pending => Poll::Pending,
        }
    }
}

impl Write for PairIo {
    fn poll_write(
        mut self: Pin<&mut Self>,
        cx: &mut Context<'_>,
        buf: &[u8],
    ) -> Poll<Result<usize, std::io::Error>> {
        Pin::new(&mut self.0).poll_write(cx, buf)
    }

    fn poll_flush(mut self: Pin<&mut Self>, cx: &mut Context<'_>) -> Poll<Result<(), std::io::Error>> {
        Pin::new(&mut self.0).poll_flush(cx)
    }

    fn poll_shutdown(
        mut self: Pin<&mut Self>,
        cx: &mut Context<'_>,
    ) -> Poll<Result<(), std::io::Error>> {
        Pin::new(&mut self.0).poll_shutdown(cx)
    }
}

fn runtime() -> tokio::runtime::Runtime {
    tokio::runtime::Builder::new_current_thread().enable_all().build().unwrap()
}

/// Opens a connection over one end of a socket pair and hands back the other end.
async fn connect() -> (SnapdConnection, UnixStream) {
    let (client, server) = UnixStream::pair().unwrap();
    let (sender, driver) = hyper::client::conn::http1::handshake::<_, SnapdRequestBody>(PairIo(client))
        .await
        .unwrap();
    let handle = tokio::spawn(driver);
    (SnapdConnection::new(sender, handle), server)
}

/// Reads one request from `server` and answers it with `body`.
async fn answer(mut server: UnixStream, body: &'static str) -> UnixStream {
    let mut seen = Vec::new();
    let mut chunk = [0u8; 1024];
    while !seen.windows(4).any(|w| w == b"\r\n\r\n") {
        let n = server.read(&mut chunk).await.unwrap();
        assert!(n > 0);
        seen.extend_from_slice(&chunk[..n]);
    }
    let text = String::from_utf8(seen).unwrap();
    assert!(text.starts_with("GET http://localhost/v2/aliases HTTP/1.1\r\n"), "{}", text);
    assert!(text.to_lowercase().contains("host: localhost\r\n"));
    let response = format!(
        "HTTP/1.1 200 OK\r\ncontent-type: application/json\r\ncontent-length: {}\r\n\r\n{}",
        body.len(),
        body
    );
    server.write_all(response.as_bytes()).await.unwrap();
    server
}

/// Sends the aliases request on `conn`, answered by `server`, and reads the answer.
async fn exchange(conn: &mut SnapdConnection, server: UnixStream) -> (Aliases<'static>, UnixStream) {
    let parts = build_request(&GetAliases).unwrap();
    let mut builder = hyper::Request::get(parts.uri.as_str());
    for (name, value) in &parts.headers {
        builder = builder.header(name.as_str(), value.as_str());
    }
    let request = builder.body(Empty::new()).unwrap();
    let server_task = tokio::spawn(answer(server, BODY));
    let sender = conn.request_sender().unwrap();
    let response = sender.send_request(request).await.unwrap();
    let data = response.into_body().collect().await.unwrap().to_bytes().to_vec();
    let server = server_task.await.unwrap();
    let document: serde_json::Value = serde_json::from_slice(&data).unwrap();
    let aliases: Aliases = parse_answer(&to_model(&document)).unwrap();
    (aliases, server)
}

fn to_model(v: &serde_json::Value) -> JsonValue {
    match v {
        serde_json::Value::Null => JsonValue::Null,
        serde_json::Value::Bool(b) => JsonValue::Bool(*b),
        serde_json::Value::Number(n) => match n.as_i64() {
            Some(i) => JsonValue::Integer(i),
            None => JsonValue::OtherNumber,
        },
        serde_json::Value::String(s) => JsonValue::Str(s.clone()),
        serde_json::Value::Array(a) => JsonValue::Array(a.iter().map(to_model).collect()),
        serde_json::Value::Object(m) => {
            JsonValue::Object(m.iter().map(|(k, v)| (k.clone(), to_model(v))).collect())
        }
    }
}

fn check_aliases(aliases: &Aliases) {
    let (snap, entries) = &aliases.0[0];
    assert_eq!(snap.as_str(), "snap");
    assert_eq!(entries[0].0.as_str(), "alias1");
    assert_eq!(entries[0].1.command, SnapCommand::from_convertible("snap", "app"));
    assert_eq!(entries[0].1.status, AliasStatus::Auto { app_name: "app".into() });
}

#[test]
fn answer_over_a_connection_is_read() {
    runtime().block_on(async {
        let (mut conn, server) = connect().await;
        let (aliases, _server) = exchange(&mut conn, server).await;
        check_aliases(&aliases);
    });
}

#[test]
fn healthy_connection_is_kept() {
    runtime().block_on(async {
        let (mut conn, server) = connect().await;
        let (_, server) = exchange(&mut conn, server).await;
        assert!(!conn.connection_ended());
        assert!(matches!(conn.recycle(), Recycle::Keep));
        let (aliases, _server) = exchange(&mut conn, server).await;
        check_aliases(&aliases);
    });
}

#[test]
fn peer_closing_while_idle_gets_a_fresh_connection() {
    runtime().block_on(async {
        let (mut conn, server) = connect().await;
        let (_, server) = exchange(&mut conn, server).await;
        drop(server);
        let mut waited = 0;
        while !conn.connection_ended() {
            assert!(waited < 100_000, "connection never noticed its peer closing");
            tokio::task::yield_now().await;
            waited += 1;
        }
        let taken = match conn.recycle() {
            Recycle::CloseThenReject(taken) => taken,
            Recycle::Keep => panic!("an ended connection was kept"),
            Recycle::Reject => panic!("an open connection was found closed"),
        };
        assert!(matches!(conn, SnapdConnection::Closed));
        let handle = taken.begin_close().expect("an open connection has a driving task");
        assert!(close_outcome(Some(handle.await)).is_ok());

        let (mut fresh, server) = connect().await;
        let (aliases, _server) = exchange(&mut fresh, server).await;
        check_aliases(&aliases);
    });
}

#[test]
fn closing_an_open_connection_waits_for_its_task() {
    runtime().block_on(async {
        let (mut conn, server) = connect().await;
        let (_, _server) = exchange(&mut conn, server).await;
        let handle = conn.begin_close().expect("an open connection has a driving task");
        assert!(close_outcome(Some(handle.await)).is_ok());
    });
}
