use std::collections::BTreeMap;

use memcached::proto::binary::multi::{
    delete_multi_request, get_multi_request, set_multi_request, GetMulti, QuietBatch,
};
use memcached::proto::binary::packet::{Response, ResponseHeader};
use memcached::proto::binary::reply;
use memcached::proto::binary::request;
use memcached::proto::binary::stat::Stats;
use memcached::proto::binary::step::Step;
use memcached::proto::{
    CasOperation, Error, ErrorKind, MemCachedResult, MultiOperation, NoReplyOperation, Operation,
    Proto, ServerOperation, Status, Version,
};

const KEY_NOT_FOUND: u16 = 0x0001;
const KEY_EXISTS: u16 = 0x0002;
const NON_NUMERIC: u16 = 0x0006;
const UNKNOWN_COMMAND: u16 = 0x0081;

#[derive(Clone)]
struct Item {
    value: Vec<u8>,
    flags: u32,
    cas: u64,
}

/// A server in memory that answers the requests of the binary protocol.
#[derive(Clone)]
struct Server {
    items: BTreeMap<Vec<u8>, Item>,
    last_cas: u64,
    stats: Vec<(String, String)>,
    version: String,
}

fn respond(opcode: u8, status: u16, extras: &[u8], key: &[u8], value: &[u8], opaque: u32, cas: u64) -> Vec<u8> {
    let mut out = vec![0x81, opcode];
    out.extend_from_slice(&(key.len() as u16).to_be_bytes());
    out.push(extras.len() as u8);
    out.push(0);
    out.extend_from_slice(&status.to_be_bytes());
    out.extend_from_slice(&((extras.len() + key.len() + value.len()) as u32).to_be_bytes());
    out.extend_from_slice(&opaque.to_be_bytes());
    out.extend_from_slice(&cas.to_be_bytes());
    out.extend_from_slice(extras);
    out.extend_from_slice(key);
    out.extend_from_slice(value);
    out
}

fn be32(bytes: &[u8]) -> u32 {
    u32::from_be_bytes([bytes[0], bytes[1], bytes[2], bytes[3]])
}

fn be64(bytes: &[u8]) -> u64 {
    let mut word = [0u8; 8];
    word.copy_from_slice(&bytes[..8]);
    u64::from_be_bytes(word)
}

impl Server {
    fn new() -> Server {
        Server { items: BTreeMap::new(), last_cas: 0, stats: Vec::new(), version: "1.4.15".to_string() }
    }

    fn store(&mut self, key: &[u8], value: Vec<u8>, flags: u32) -> u64 {
        self.last_cas += 1;
        self.items.insert(key.to_vec(), Item { value, flags, cas: self.last_cas });
        self.last_cas
    }

    /// Answers every request frame in `input`.
    fn handle(&mut self, input: &[u8]) -> Vec<u8> {
        let mut out = Vec::new();
        let mut at = 0;
        while at < input.len() {
            assert_eq!(input[at], 0x80);
            let opcode = input[at + 1];
            let key_len = u16::from_be_bytes([input[at + 2], input[at + 3]]) as usize;
            let extras_len = input[at + 4] as usize;
            let body_len = be32(&input[at + 8..]) as usize;
            let opaque = be32(&input[at + 12..]);
            let cas = be64(&input[at + 16..]);
            let body = &input[at + 24..at + 24 + body_len];
            let extras = &body[..extras_len];
            let key = &body[extras_len..extras_len + key_len];
            let value = &body[extras_len + key_len..];
            out.extend_from_slice(&self.answer(opcode, extras, key, value, opaque, cas));
            at += 24 + body_len;
        }
        out
    }

    fn answer(&mut self, opcode: u8, extras: &[u8], key: &[u8], value: &[u8], opaque: u32, cas: u64) -> Vec<u8> {
        let fail = |status: u16, message: &str| respond(opcode, status, &[], &[], message.as_bytes(), opaque, 0);
        let done = |quiet: bool, new_cas: u64| {
            if quiet {
                Vec::new()
            } else {
                respond(opcode, 0, &[], &[], &[], opaque, new_cas)
            }
        };
        let stale = |item: Option<&Item>| match item {
            Some(item) => cas != 0 && item.cas != cas,
            None => false,
        };
        match opcode {
            0x00 | 0x09 | 0x0c | 0x0d => {
                let quiet = opcode == 0x09 || opcode == 0x0d;
                let with_key = opcode == 0x0c || opcode == 0x0d;
                match self.items.get(key) {
                    Some(item) => respond(
                        opcode,
                        0,
                        &item.flags.to_be_bytes(),
                        if with_key { key } else { &[] },
                        &item.value,
                        opaque,
                        item.cas,
                    ),
                    None if quiet => Vec::new(),
                    None => fail(KEY_NOT_FOUND, "Not found"),
                }
            }
            0x01 | 0x11 | 0x02 | 0x12 | 0x03 | 0x13 => {
                let quiet = opcode > 0x10;
                let kind = if quiet { opcode - 0x10 } else { opcode };
                let present = self.items.get(key);
                if kind == 0x02 && present.is_some() {
                    return fail(KEY_EXISTS, "Data exists for key.");
                }
                if kind == 0x03 && present.is_none() {
                    return fail(KEY_NOT_FOUND, "Not found");
                }
                if cas != 0 && present.is_none() {
                    return fail(KEY_NOT_FOUND, "Not found");
                }
                if stale(present) {
                    return fail(KEY_EXISTS, "Data exists for key.");
                }
                let new_cas = self.store(key, value.to_vec(), be32(extras));
                done(quiet, new_cas)
            }
            0x04 | 0x14 => {
                if self.items.remove(key).is_none() {
                    return fail(KEY_NOT_FOUND, "Not found");
                }
                done(opcode == 0x14, 0)
            }
            0x05 | 0x15 | 0x06 | 0x16 => {
                let quiet = opcode > 0x10;
                let up = opcode == 0x05 || opcode == 0x15;
                let amount = be64(extras);
                let initial = be64(&extras[8..]);
                let expiration = be32(&extras[16..]);
                let present = self.items.get(key);
                if stale(present) {
                    return fail(KEY_EXISTS, "Data exists for key.");
                }
                let counter = match present {
                    None if expiration == u32::MAX => return fail(KEY_NOT_FOUND, "Not found"),
                    None => initial,
                    Some(item) => {
                        let text = String::from_utf8_lossy(&item.value).to_string();
                        match text.parse::<u64>() {
                            Ok(old) if up => old.wrapping_add(amount),
                            Ok(old) => old.saturating_sub(amount),
                            Err(_) => return fail(NON_NUMERIC, "Non-numeric server-side value for incr or decr"),
                        }
                    }
                };
                let new_cas = self.store(key, counter.to_string().into_bytes(), 0);
                if quiet {
                    Vec::new()
                } else {
                    respond(opcode, 0, &[], &[], &counter.to_be_bytes(), opaque, new_cas)
                }
            }
            0x0e | 0x19 | 0x0f | 0x1a => {
                let quiet = opcode > 0x10;
                let after = opcode == 0x0e || opcode == 0x19;
                let present = self.items.get(key);
                if stale(present) {
                    return fail(KEY_EXISTS, "Data exists for key.");
                }
                let (joined, flags) = match present {
                    None => return fail(KEY_NOT_FOUND, "Not found"),
                    Some(item) if after => ([&item.value[..], value].concat(), item.flags),
                    Some(item) => ([value, &item.value[..]].concat(), item.flags),
                };
                let new_cas = self.store(key, joined, flags);
                done(quiet, new_cas)
            }
            0x1c => {
                let present = self.items.get(key);
                if stale(present) {
                    return fail(KEY_EXISTS, "Data exists for key.");
                }
                match present {
                    None => fail(KEY_NOT_FOUND, "Not found"),
                    Some(item) => respond(opcode, 0, &[], &[], &[], opaque, item.cas),
                }
            }
            0x07 | 0x0a => respond(opcode, 0, &[], &[], &[], opaque, 0),
            0x08 => {
                self.items.clear();
                respond(opcode, 0, &[], &[], &[], opaque, 0)
            }
            0x0b => respond(opcode, 0, &[], &[], self.version.as_bytes(), opaque, 0),
            0x10 => {
                let mut out = Vec::new();
                for (name, value) in &self.stats {
                    out.extend_from_slice(&respond(opcode, 0, &[], name.as_bytes(), value.as_bytes(), opaque, 0));
                }
                out.extend_from_slice(&respond(opcode, 0, &[], &[], &[], opaque, 0));
                out
            }
            _ => fail(UNKNOWN_COMMAND, "Unknown command"),
        }
    }
}

/// A connection to a server in memory: what it sends is answered at once,
/// and the answers wait to be read.
#[derive(Clone)]
struct Loopback {
    server: Server,
    inbox: Vec<u8>,
    sent: Vec<u8>,
}

impl Loopback {
    fn new() -> Loopback {
        Loopback { server: Server::new(), inbox: Vec::new(), sent: Vec::new() }
    }

    fn send(&mut self, request: MemCachedResult<Vec<u8>>) -> MemCachedResult<()> {
        let bytes = request?;
        let answers = self.server.handle(&bytes);
        self.sent.extend_from_slice(&bytes);
        self.inbox.extend_from_slice(&answers);
        Ok(())
    }

    fn read(&mut self, len: usize) -> MemCachedResult<Vec<u8>> {
        if self.inbox.len() < len {
            return Err(Error::new(
                ErrorKind::IoError(std::io::ErrorKind::UnexpectedEof),
                "transport failed",
                None,
            ));
        }
        let rest = self.inbox.split_off(len);
        let bytes = std::mem::replace(&mut self.inbox, rest);
        Ok(bytes)
    }

    fn recv(&mut self) -> MemCachedResult<Response> {
        let head = self.read(24)?;
        let header = ResponseHeader::parse(&head)?;
        let body = self.read(header.body_len as usize)?;
        header.decode_body(&body)
    }

    fn exchange(&mut self, request: MemCachedResult<Vec<u8>>) -> MemCachedResult<Response> {
        self.send(request)?;
        self.recv()
    }

    fn quiet_batch(&mut self) -> MemCachedResult<()> {
        let mut batch = QuietBatch::new();
        loop {
            let event = self.recv();
            match batch.step(event) {
                Step::More(next) => batch = next,
                Step::Done(result) => return result,
            }
        }
    }
}

impl Operation for Loopback {
    fn set(&mut self, key: &[u8], value: &[u8], flags: u32, expiration: u32) -> MemCachedResult<()> {
        self.exchange(request::set_request(key, value, flags, expiration)).map(|_| ())
    }

    fn add(&mut self, key: &[u8], value: &[u8], flags: u32, expiration: u32) -> MemCachedResult<()> {
        self.exchange(request::add_request(key, value, flags, expiration)).map(|_| ())
    }

    fn delete(&mut self, key: &[u8]) -> MemCachedResult<()> {
        self.exchange(request::delete_request(key)).map(|_| ())
    }

    fn replace(&mut self, key: &[u8], value: &[u8], flags: u32, expiration: u32) -> MemCachedResult<()> {
        self.exchange(request::replace_request(key, value, flags, expiration)).map(|_| ())
    }

    fn get(&mut self, key: &[u8]) -> MemCachedResult<(Vec<u8>, u32)> {
        reply::get_reply(self.exchange(request::get_request(key))?)
    }

    fn getk(&mut self, key: &[u8]) -> MemCachedResult<(Vec<u8>, Vec<u8>, u32)> {
        reply::getk_reply(self.exchange(request::getk_request(key))?)
    }

    fn increment(&mut self, key: &[u8], amount: u64, initial: u64, expiration: u32) -> MemCachedResult<u64> {
        reply::counter_reply(&self.exchange(request::increment_request(key, amount, initial, expiration))?)
    }

    fn decrement(&mut self, key: &[u8], amount: u64, initial: u64, expiration: u32) -> MemCachedResult<u64> {
        reply::counter_reply(&self.exchange(request::decrement_request(key, amount, initial, expiration))?)
    }

    fn append(&mut self, key: &[u8], value: &[u8]) -> MemCachedResult<()> {
        self.exchange(request::append_request(key, value)).map(|_| ())
    }

    fn prepend(&mut self, key: &[u8], value: &[u8]) -> MemCachedResult<()> {
        self.exchange(request::prepend_request(key, value)).map(|_| ())
    }

    fn touch(&mut self, key: &[u8], expiration: u32) -> MemCachedResult<()> {
        self.exchange(request::touch_request(key, expiration)).map(|_| ())
    }
}

impl CasOperation for Loopback {
    fn set_cas(&mut self, key: &[u8], value: &[u8], flags: u32, expiration: u32, cas: u64) -> MemCachedResult<u64> {
        self.exchange(request::set_cas_request(key, value, flags, expiration, cas)).map(|r| r.cas)
    }

    fn add_cas(&mut self, key: &[u8], value: &[u8], flags: u32, expiration: u32) -> MemCachedResult<u64> {
        self.exchange(request::add_cas_request(key, value, flags, expiration)).map(|r| r.cas)
    }

    fn replace_cas(&mut self, key: &[u8], value: &[u8], flags: u32, expiration: u32, cas: u64) -> MemCachedResult<u64> {
        self.exchange(request::replace_cas_request(key, value, flags, expiration, cas)).map(|r| r.cas)
    }

    fn get_cas(&mut self, key: &[u8]) -> MemCachedResult<(Vec<u8>, u32, u64)> {
        reply::get_cas_reply(self.exchange(request::get_cas_request(key))?)
    }

    fn getk_cas(&mut self, key: &[u8]) -> MemCachedResult<(Vec<u8>, Vec<u8>, u32, u64)> {
        reply::getk_cas_reply(self.exchange(request::getk_cas_request(key))?)
    }

    fn increment_cas(&mut self, key: &[u8], amount: u64, initial: u64, expiration: u32, cas: u64) -> MemCachedResult<(u64, u64)> {
        reply::counter_cas_reply(&self.exchange(request::increment_cas_request(key, amount, initial, expiration, cas))?)
    }

    fn decrement_cas(&mut self, key: &[u8], amount: u64, initial: u64, expiration: u32, cas: u64) -> MemCachedResult<(u64, u64)> {
        reply::counter_cas_reply(&self.exchange(request::decrement_cas_request(key, amount, initial, expiration, cas))?)
    }

    fn append_cas(&mut self, key: &[u8], value: &[u8], cas: u64) -> MemCachedResult<u64> {
        self.exchange(request::append_cas_request(key, value, cas)).map(|r| r.cas)
    }

    fn prepend_cas(&mut self, key: &[u8], value: &[u8], cas: u64) -> MemCachedResult<u64> {
        self.exchange(request::prepend_cas_request(key, value, cas)).map(|r| r.cas)
    }

    fn touch_cas(&mut self, key: &[u8], expiration: u32, cas: u64) -> MemCachedResult<u64> {
        self.exchange(request::touch_cas_request(key, expiration, cas)).map(|r| r.cas)
    }
}

impl ServerOperation for Loopback {
    fn quit(&mut self) -> MemCachedResult<()> {
        self.exchange(request::quit_request()).map(|_| ())
    }

    fn flush(&mut self, expiration: u32) -> MemCachedResult<()> {
        self.exchange(request::flush_request(expiration)).map(|_| ())
    }

    fn noop(&mut self) -> MemCachedResult<()> {
        self.exchange(request::noop_request()).map(|_| ())
    }

    fn version(&mut self) -> MemCachedResult<Version> {
        reply::version_reply(&self.exchange(request::version_request())?)
    }

    fn stat(&mut self) -> MemCachedResult<BTreeMap<String, String>> {
        self.send(request::stat_request())?;
        let mut stats = Stats::new();
        loop {
            let event = self.recv();
            match stats.step(event) {
                Step::More(next) => stats = next,
                Step::Done(result) => return result.map(|list| list.into_iter().collect()),
            }
        }
    }
}

impl MultiOperation for Loopback {
    fn set_multi(&mut self, kv: BTreeMap<Vec<u8>, (Vec<u8>, u32, u32)>) -> MemCachedResult<()> {
        let items: Vec<(Vec<u8>, (Vec<u8>, u32, u32))> = kv.into_iter().collect();
        self.send(set_multi_request(&items))?;
        self.quiet_batch()
    }

    fn delete_multi(&mut self, keys: Vec<Vec<u8>>) -> MemCachedResult<()> {
        self.send(delete_multi_request(&keys))?;
        self.quiet_batch()
    }

    fn get_multi(&mut self, keys: Vec<Vec<u8>>) -> MemCachedResult<BTreeMap<Vec<u8>, (Vec<u8>, u32)>> {
        self.send(get_multi_request(&keys))?;
        let mut batch = GetMulti::new(keys);
        loop {
            let event = self.recv();
            match batch.step(event) {
                Step::More(next) => batch = next,
                Step::Done(result) => return result.map(|hits| hits.into_iter().collect()),
            }
        }
    }
}

impl NoReplyOperation for Loopback {
    fn set_noreply(&mut self, key: &[u8], value: &[u8], flags: u32, expiration: u32) -> MemCachedResult<()> {
        self.send(request::set_noreply_request(key, value, flags, expiration))
    }

    fn add_noreply(&mut self, key: &[u8], value: &[u8], flags: u32, expiration: u32) -> MemCachedResult<()> {
        self.send(request::add_noreply_request(key, value, flags, expiration))
    }

    fn delete_noreply(&mut self, key: &[u8]) -> MemCachedResult<()> {
        self.send(request::delete_noreply_request(key))
    }

    fn replace_noreply(&mut self, key: &[u8], value: &[u8], flags: u32, expiration: u32) -> MemCachedResult<()> {
        self.send(request::replace_noreply_request(key, value, flags, expiration))
    }

    fn increment_noreply(&mut self, key: &[u8], amount: u64, initial: u64, expiration: u32) -> MemCachedResult<()> {
        self.send(request::increment_noreply_request(key, amount, initial, expiration))
    }

    fn decrement_noreply(&mut self, key: &[u8], amount: u64, initial: u64, expiration: u32) -> MemCachedResult<()> {
        self.send(request::decrement_noreply_request(key, amount, initial, expiration))
    }

    fn append_noreply(&mut self, key: &[u8], value: &[u8]) -> MemCachedResult<()> {
        self.send(request::append_noreply_request(key, value))
    }

    fn prepend_noreply(&mut self, key: &[u8], value: &[u8]) -> MemCachedResult<()> {
        self.send(request::prepend_noreply_request(key, value))
    }
}

impl Proto for Loopback {
    fn clone(&self) -> Box<Loopback> {
        Box::new(Clone::clone(self))
    }
}

fn status_of<T: std::fmt::Debug>(result: MemCachedResult<T>) -> Status {
    match result.unwrap_err().kind {
        ErrorKind::MemCachedError(status) => status,
        other => panic!("not an answer of the server: {:?}", other),
    }
}

fn exercise<P: Proto>(proto: &mut P) -> MemCachedResult<(Vec<u8>, u32)> {
    proto.set(b"shared", b"surface", 3, 0)?;
    proto.noop()?;
    proto.get(b"shared")
}

#[test]
fn add_on_a_present_key_fails_and_succeeds_after_delete() {
    let mut proto = Loopback::new();
    proto.set(b"key", b"first", 0, 0).unwrap();
    let e = proto.add(b"key", b"second", 0, 0).unwrap_err();
    assert_eq!(e.kind, ErrorKind::MemCachedError(Status::KeyExists));
    assert_eq!(e.desc, "key exists");
    assert_eq!(e.message(), "Data exists for key.");
    assert_eq!(proto.get(b"key").unwrap(), (b"first".to_vec(), 0));
    proto.delete(b"key").unwrap();
    proto.add(b"key", b"second", 0, 0).unwrap();
    assert_eq!(proto.get(b"key").unwrap(), (b"second".to_vec(), 0));
    assert!(proto.inbox.is_empty());
}

#[test]
fn get_on_a_key_never_set_fails_and_returns_what_was_set() {
    let mut proto = Loopback::new();
    assert_eq!(status_of(proto.get(b"key")), Status::KeyNotFound);
    assert_eq!(status_of(proto.getk(b"key")), Status::KeyNotFound);
    proto.set(b"key", b"value", 0xdeadbeef, 3600).unwrap();
    assert_eq!(proto.get(b"key").unwrap(), (b"value".to_vec(), 0xdeadbeef));
    assert_eq!(proto.getk(b"key").unwrap(), (b"key".to_vec(), b"value".to_vec(), 0xdeadbeef));
    proto.set(b"empty", b"", 0, 0).unwrap();
    assert_eq!(proto.get(b"empty").unwrap(), (Vec::new(), 0));
}

#[test]
fn compare_and_swap() {
    let mut proto = Loopback::new();
    proto.set(b"key", b"v1", 1, 0).unwrap();
    let (value, flags, token) = proto.get_cas(b"key").unwrap();
    assert_eq!((value, flags), (b"v1".to_vec(), 1));
    assert_ne!(token, 0);
    let next = proto.set_cas(b"key", b"v2", 1, 0, token).unwrap();
    assert_ne!(next, token);
    assert_ne!(next, 0);
    assert_eq!(status_of(proto.set_cas(b"key", b"v3", 1, 0, token)), Status::KeyExists);
    assert_eq!(proto.get_cas(b"key").unwrap(), (b"v2".to_vec(), 1, next));
    assert_eq!(proto.getk_cas(b"key").unwrap(), (b"key".to_vec(), b"v2".to_vec(), 1, next));
}

#[test]
fn cas_zero_overwrites_whatever_is_stored() {
    let mut proto = Loopback::new();
    let first = proto.add_cas(b"key", b"v1", 0, 0).unwrap();
    let second = proto.set_cas(b"key", b"v2", 0, 0, 0).unwrap();
    assert_ne!(first, second);
    assert_eq!(proto.get(b"key").unwrap(), (b"v2".to_vec(), 0));
    assert_eq!(status_of(proto.add_cas(b"key", b"v3", 0, 0)), Status::KeyExists);
}

#[test]
fn stale_token_fails_every_operation_with_a_token() {
    let mut proto = Loopback::new();
    proto.set(b"key", b"10", 0, 0).unwrap();
    let (_, _, token) = proto.get_cas(b"key").unwrap();
    let stale = token + 1000;
    assert_eq!(status_of(proto.replace_cas(b"key", b"x", 0, 0, stale)), Status::KeyExists);
    assert_eq!(status_of(proto.append_cas(b"key", b"x", stale)), Status::KeyExists);
    assert_eq!(status_of(proto.prepend_cas(b"key", b"x", stale)), Status::KeyExists);
    assert_eq!(status_of(proto.increment_cas(b"key", 1, 0, 0, stale)), Status::KeyExists);
    assert_eq!(status_of(proto.decrement_cas(b"key", 1, 0, 0, stale)), Status::KeyExists);
    assert_eq!(status_of(proto.touch_cas(b"key", 10, stale)), Status::KeyExists);
    assert_eq!(proto.get_cas(b"key").unwrap(), (b"10".to_vec(), 0, token));
    let token = proto.replace_cas(b"key", b"11", 0, 0, token).unwrap();
    let token = proto.append_cas(b"key", b"0", token).unwrap();
    let token = proto.prepend_cas(b"key", b"2", token).unwrap();
    let (counter, token) = proto.increment_cas(b"key", 5, 0, 0, token).unwrap();
    assert_eq!(counter, 2115);
    let (counter, token) = proto.decrement_cas(b"key", 15, 0, 0, token).unwrap();
    assert_eq!(counter, 2100);
    assert_eq!(proto.touch_cas(b"key", 10, token).unwrap(), token);
}

#[test]
fn get_multi_returns_the_keys_that_exist() {
    let mut proto = Loopback::new();
    proto.set(b"k1", b"one", 1, 0).unwrap();
    proto.set(b"k3", b"three", 3, 0).unwrap();
    let found = proto.get_multi(vec![b"k1".to_vec(), b"k2".to_vec(), b"k3".to_vec()]).unwrap();
    let mut expected = BTreeMap::new();
    expected.insert(b"k1".to_vec(), (b"one".to_vec(), 1));
    expected.insert(b"k3".to_vec(), (b"three".to_vec(), 3));
    assert_eq!(found, expected);
    assert!(!found.contains_key(&b"k2".to_vec()));
    assert!(proto.inbox.is_empty());
    assert_eq!(proto.get_multi(vec![b"k2".to_vec()]).unwrap(), BTreeMap::new());
    assert_eq!(proto.get_multi(Vec::new()).unwrap(), BTreeMap::new());
}

#[test]
fn get_multi_sends_every_request_before_it_reads() {
    let mut proto = Loopback::new();
    proto.set(b"k1", b"one", 1, 0).unwrap();
    proto.sent.clear();
    proto.get_multi(vec![b"k1".to_vec(), b"k2".to_vec()]).unwrap();
    assert_eq!(proto.sent, get_multi_request(&[b"k1".to_vec(), b"k2".to_vec()]).unwrap());
}

#[test]
fn stat_with_no_statistics() {
    let mut proto = Loopback::new();
    assert_eq!(proto.stat().unwrap(), BTreeMap::new());
    assert!(proto.inbox.is_empty());
    proto.noop().unwrap();
}

#[test]
fn stat_returns_every_statistic() {
    let mut proto = Loopback::new();
    proto.server.stats = vec![
        ("pid".to_string(), "1162".to_string()),
        ("uptime".to_string(), "5022".to_string()),
        ("curr_items".to_string(), "0".to_string()),
    ];
    let stats = proto.stat().unwrap();
    assert_eq!(stats.len(), 3);
    assert_eq!(stats["pid"], "1162");
    assert_eq!(stats["uptime"], "5022");
    assert_eq!(stats["curr_items"], "0");
    assert!(proto.inbox.is_empty());
}

#[test]
fn increment_seeds_then_adds() {
    let mut proto = Loopback::new();
    assert_eq!(proto.increment(b"counter", 3, 5, 0).unwrap(), 5);
    assert_eq!(proto.increment(b"counter", 3, 5, 0).unwrap(), 8);
    assert_eq!(proto.decrement(b"counter", 2, 0, 0).unwrap(), 6);
    assert_eq!(proto.decrement(b"counter", 100, 0, 0).unwrap(), 0);
}

#[test]
fn increment_on_a_value_that_is_no_number() {
    let mut proto = Loopback::new();
    proto.set(b"key", b"text", 0, 0).unwrap();
    assert_eq!(status_of(proto.increment(b"key", 1, 0, 0)), Status::IncrDecrOnNonNumericValue);
    assert_eq!(status_of(proto.decrement(b"key", 1, 0, 0)), Status::IncrDecrOnNonNumericValue);
    assert_eq!(proto.get(b"key").unwrap(), (b"text".to_vec(), 0));
}

#[test]
fn increment_passes_the_answer_of_the_server_through() {
    let mut proto = Loopback::new();
    assert_eq!(status_of(proto.increment(b"absent", 1, 0, u32::MAX)), Status::KeyNotFound);
    assert_eq!(proto.increment(b"big", 1, u64::MAX, 0).unwrap(), u64::MAX);
    assert_eq!(proto.increment(b"big", 1, 0, 0).unwrap(), 0);
}

#[test]
fn operations_on_a_missing_key() {
    let mut proto = Loopback::new();
    assert_eq!(status_of(proto.replace(b"key", b"v", 0, 0)), Status::KeyNotFound);
    assert_eq!(status_of(proto.delete(b"key")), Status::KeyNotFound);
    assert_eq!(status_of(proto.append(b"key", b"v")), Status::KeyNotFound);
    assert_eq!(status_of(proto.prepend(b"key", b"v")), Status::KeyNotFound);
    assert_eq!(status_of(proto.touch(b"key", 10)), Status::KeyNotFound);
    assert_eq!(status_of(proto.get(b"key")), Status::KeyNotFound);
    assert!(proto.inbox.is_empty());
}

#[test]
fn replace_append_prepend_touch_on_a_present_key() {
    let mut proto = Loopback::new();
    proto.set(b"key", b"b", 4, 0).unwrap();
    proto.replace(b"key", b"c", 5, 0).unwrap();
    proto.append(b"key", b"d").unwrap();
    proto.prepend(b"key", b"a").unwrap();
    proto.touch(b"key", 60).unwrap();
    assert_eq!(proto.get(b"key").unwrap(), (b"acd".to_vec(), 5));
}

#[test]
fn set_multi_then_get_multi_then_delete_multi() {
    let mut proto = Loopback::new();
    let mut kv = BTreeMap::new();
    kv.insert(b"a".to_vec(), (b"one".to_vec(), 1, 0));
    kv.insert(b"b".to_vec(), (b"two".to_vec(), 2, 0));
    kv.insert(b"c".to_vec(), (b"three".to_vec(), 3, 0));
    proto.set_multi(kv).unwrap();
    assert!(proto.inbox.is_empty());
    let keys = vec![b"c".to_vec(), b"a".to_vec(), b"b".to_vec()];
    let found = proto.get_multi(keys.clone()).unwrap();
    assert_eq!(found.len(), 3);
    assert_eq!(found[&b"a".to_vec()], (b"one".to_vec(), 1));
    assert_eq!(found[&b"b".to_vec()], (b"two".to_vec(), 2));
    assert_eq!(found[&b"c".to_vec()], (b"three".to_vec(), 3));
    proto.delete_multi(vec![b"a".to_vec(), b"missing".to_vec(), b"c".to_vec()]).unwrap();
    assert!(proto.inbox.is_empty());
    let found = proto.get_multi(keys).unwrap();
    assert_eq!(found.len(), 1);
    assert_eq!(found[&b"b".to_vec()], (b"two".to_vec(), 2));
}

#[test]
fn set_multi_of_nothing() {
    let mut proto = Loopback::new();
    proto.set_multi(BTreeMap::new()).unwrap();
    proto.delete_multi(Vec::new()).unwrap();
    assert!(proto.inbox.is_empty());
}

#[test]
fn noreply_operations_return_once_sent() {
    let mut proto = Loopback::new();
    proto.set_noreply(b"key", b"b", 1, 0).unwrap();
    proto.append_noreply(b"key", b"c").unwrap();
    proto.prepend_noreply(b"key", b"a").unwrap();
    proto.increment_noreply(b"n", 1, 10, 0).unwrap();
    proto.increment_noreply(b"n", 5, 10, 0).unwrap();
    proto.decrement_noreply(b"n", 2, 10, 0).unwrap();
    proto.add_noreply(b"new", b"x", 0, 0).unwrap();
    proto.replace_noreply(b"new", b"y", 0, 0).unwrap();
    assert!(proto.inbox.is_empty());
    assert_eq!(proto.get(b"key").unwrap(), (b"abc".to_vec(), 1));
    assert_eq!(proto.get(b"n").unwrap(), (b"13".to_vec(), 0));
    assert_eq!(proto.get(b"new").unwrap(), (b"y".to_vec(), 0));
    proto.delete_noreply(b"new").unwrap();
    assert!(proto.inbox.is_empty());
    assert_eq!(status_of(proto.get(b"new")), Status::KeyNotFound);
}

#[test]
fn noreply_failure_is_not_seen_by_the_call() {
    let mut proto = Loopback::new();
    proto.set(b"key", b"v", 0, 0).unwrap();
    assert_eq!(proto.add_noreply(b"key", b"w", 0, 0), Ok(()));
    assert!(!proto.inbox.is_empty());
    let late = proto.recv();
    assert_eq!(status_of(late), Status::KeyExists);
    assert!(proto.inbox.is_empty());
    assert_eq!(proto.get(b"key").unwrap(), (b"v".to_vec(), 0));
}

#[test]
fn version_of_the_server() {
    let mut proto = Loopback::new();
    assert_eq!(proto.version().unwrap(), Version { major: 1, minor: 4, patch: 15 });
    proto.server.version = "1.6.21".to_string();
    assert_eq!(proto.version().unwrap(), Version { major: 1, minor: 6, patch: 21 });
    proto.server.version = "unknown".to_string();
    let e = proto.version().unwrap_err();
    assert_eq!(e.kind, ErrorKind::OtherError);
}

#[test]
fn flush_noop_quit() {
    let mut proto = Loopback::new();
    proto.set(b"key", b"v", 0, 0).unwrap();
    proto.noop().unwrap();
    assert_eq!(proto.get(b"key").unwrap(), (b"v".to_vec(), 0));
    proto.flush(0).unwrap();
    assert_eq!(status_of(proto.get(b"key")), Status::KeyNotFound);
    proto.quit().unwrap();
    assert!(proto.inbox.is_empty());
}

#[test]
fn oversized_key_sends_nothing() {
    let mut proto = Loopback::new();
    let key = vec![b'k'; 0x1_0000];
    let e = proto.set(&key, b"v", 0, 0).unwrap_err();
    assert_eq!(e.kind, ErrorKind::OtherError);
    assert!(proto.sent.is_empty());
    let e = proto.get_multi(vec![b"a".to_vec(), key]).unwrap_err();
    assert_eq!(e.kind, ErrorKind::OtherError);
    assert!(proto.sent.is_empty());
}

#[test]
fn truncated_answer_is_a_transport_error() {
    let mut proto = Loopback::new();
    proto.send(request::noop_request()).unwrap();
    proto.inbox.truncate(10);
    let e = proto.recv().unwrap_err();
    assert_eq!(e.kind, ErrorKind::IoError(std::io::ErrorKind::UnexpectedEof));
}

#[test]
fn one_handle_for_all_five_families() {
    let mut proto = Loopback::new();
    assert_eq!(exercise(&mut proto).unwrap(), (b"surface".to_vec(), 3));
    let mut copy = Proto::clone(&proto);
    assert_eq!(copy.get(b"shared").unwrap(), (b"surface".to_vec(), 3));
}
