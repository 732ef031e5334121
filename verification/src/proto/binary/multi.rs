//! The operations on many keys.
//!
//! The requests of a batch go out together, one for each key and each with
//! the quiet variant of its opcode, then a `noop`. The opaque token of the
//! request for the key at index `i` is `i`. The server answers a quiet
//! request only where it has something to say (a hit for a get, a failure
//! for the others), and its answer to the `noop` ends the batch.
//!
//! A key that is not found fails no batch. Of the other failures of single
//! keys the first is the result of the batch; it is returned when the last
//! frame of the batch has come, so that the stream is left at the start of
//! a frame. An error that is no answer of the server (the transport failed,
//! or a frame was malformed) ends the batch at once.

use crate::proto::binary::packet::{decoded, oversized, Response, ResponseView};
use crate::proto::binary::reply::flags_of;
use crate::proto::binary::request::{
    bare_frame, encode_bare, encode_key, encode_store, key_frame, store_frame,
};
use crate::proto::binary::step::Step;
use crate::proto::binarydef::{Opcode, OPCODE_GETKQ, OPCODE_NOOP};
use crate::proto::error::{Error, ErrorKind, ErrorView, MemCachedResult};
use crate::proto::status::Status;
use crate::proto::wire::from_be32;
use vstd::prelude::*;
use vstd::slice::slice_to_vec;

verus! {

broadcast use vstd::slice::group_slice_axioms;

/// The keys of a batch, as bytes.
pub type Keys = Seq<Seq<u8>>;

/// The items of a `set_multi`: for each key its value, flags and
/// expiration.
pub type Items = Seq<(Seq<u8>, (Seq<u8>, u32, u32))>;

/// What a `get_multi` has found: for each key its value and flags.
pub type Hits = Seq<(Seq<u8>, (Seq<u8>, u32))>;

/// The contents of a list of keys.
pub open spec fn key_views(keys: Seq<Vec<u8>>) -> Keys {
    Seq::new(keys.len(), |i: int| keys[i]@)
}

/// The contents of a list of items to store.
pub open spec fn item_views(items: Seq<(Vec<u8>, (Vec<u8>, u32, u32))>) -> Items {
    Seq::new(items.len(), |i: int| (items[i].0@, (items[i].1.0@, items[i].1.1, items[i].1.2)))
}

/// The contents of a list of hits.
pub open spec fn hit_views(hits: Seq<(Vec<u8>, (Vec<u8>, u32))>) -> Hits {
    Seq::new(hits.len(), |i: int| (hits[i].0@, (hits[i].1.0@, hits[i].1.1)))
}

/// Whether a batch of requests that name a key each can be sent: the
/// indices of the keys fit the opaque token, and every key fits a frame.
pub open spec fn keys_fit(keys: Keys) -> bool {
    &&& keys.len() <= u32::MAX
    &&& forall|i: int| 0 <= i < keys.len() ==> (#[trigger] keys[i]).len() <= u16::MAX
}

/// The frames for the first `n` keys of a batch, one after the other.
pub open spec fn key_frames(opcode: Opcode, keys: Keys, n: nat) -> Seq<u8>
    decreases n,
{
    if n == 0 {
        Seq::empty()
    } else {
        key_frames(opcode, keys, (n - 1) as nat) + key_frame(
            opcode,
            keys[n - 1],
            (n - 1) as u32,
            0,
        ).wire()
    }
}

/// The bytes of a batch of requests that name a key each: the frames of
/// the keys, then a `noop`.
pub open spec fn key_batch(opcode: Opcode, keys: Keys) -> Seq<u8> {
    key_frames(opcode, keys, keys.len()) + bare_frame(Opcode::Noop, keys.len() as u32).wire()
}

/// The request that stores the item at index `i` of a batch.
pub open spec fn item_frame(items: Items, i: int) -> crate::proto::binary::packet::RequestView {
    store_frame(
        Opcode::StoreQ,
        items[i].0,
        items[i].1.0,
        items[i].1.1,
        items[i].1.2,
        i as u32,
        0,
    )
}

/// Whether a batch of storing requests can be sent: the indices of the
/// items fit the opaque token, and every item fits a frame.
pub open spec fn items_fit(items: Items) -> bool {
    &&& items.len() <= u32::MAX
    &&& forall|i: int| 0 <= i < items.len() ==> (#[trigger] item_frame(items, i)).fits()
}

/// The frames for the first `n` items of a batch, one after the other.
pub open spec fn item_frames(items: Items, n: nat) -> Seq<u8>
    decreases n,
{
    if n == 0 {
        Seq::empty()
    } else {
        item_frames(items, (n - 1) as nat) + item_frame(items, n - 1).wire()
    }
}

/// The bytes of a batch of storing requests: the frames of the items, then
/// a `noop`.
pub open spec fn item_batch(items: Items) -> Seq<u8> {
    item_frames(items, items.len()) + bare_frame(Opcode::Noop, items.len() as u32).wire()
}

/// Encodes a batch of requests that name a key each.
fn encode_key_batch(opcode: Opcode, keys: &[Vec<u8>]) -> (r: MemCachedResult<Vec<u8>>)
    ensures
        match r {
            Ok(bytes) => keys_fit(key_views(keys@)) && bytes@ == key_batch(
                opcode,
                key_views(keys@),
            ),
            Err(e) => !keys_fit(key_views(keys@)) && e@ == oversized(),
        },
{
    let n = keys.len();
    if n > 0xffff_ffff {
        return Err(Error::new(ErrorKind::OtherError, "request too long for a frame", None));
    }
    let ghost views = key_views(keys@);
    let mut out: Vec<u8> = Vec::new();
    let mut i: usize = 0;
    while i < n
        invariant
            i <= n,
            n == keys@.len(),
            n <= u32::MAX,
            views == key_views(keys@),
            out@ == key_frames(opcode, views, i as nat),
            forall|j: int| 0 <= j < i ==> (#[trigger] views[j]).len() <= u16::MAX,
        decreases n - i,
    {
        match encode_key(opcode, keys[i].as_slice(), i as u32, 0) {
            Ok(frame) => {
                out.extend_from_slice(frame.as_slice());
                assert(out@ =~= key_frames(opcode, views, (i + 1) as nat));
            },
            Err(e) => {
                assert(views[i as int].len() > u16::MAX);
                return Err(e);
            },
        }
        i += 1;
    }
    match encode_bare(Opcode::Noop, n as u32) {
        Ok(frame) => {
            out.extend_from_slice(frame.as_slice());
            assert(out@ =~= key_batch(opcode, views));
            Ok(out)
        },
        Err(e) => Err(e),
    }
}

/// The requests of `get_multi`: for each key a quiet `getk` whose opaque
/// token is the index of the key, then a `noop`.
pub fn get_multi_request(keys: &[Vec<u8>]) -> (r: MemCachedResult<Vec<u8>>)
    ensures
        match r {
            Ok(bytes) => keys_fit(key_views(keys@)) && bytes@ == key_batch(
                Opcode::GetKQ,
                key_views(keys@),
            ),
            Err(e) => !keys_fit(key_views(keys@)) && e@ == oversized(),
        },
{
    encode_key_batch(Opcode::GetKQ, keys)
}

/// The requests of `delete_multi`: for each key a quiet `delete` whose
/// opaque token is the index of the key, then a `noop`.
pub fn delete_multi_request(keys: &[Vec<u8>]) -> (r: MemCachedResult<Vec<u8>>)
    ensures
        match r {
            Ok(bytes) => keys_fit(key_views(keys@)) && bytes@ == key_batch(
                Opcode::DeleteQ,
                key_views(keys@),
            ),
            Err(e) => !keys_fit(key_views(keys@)) && e@ == oversized(),
        },
{
    encode_key_batch(Opcode::DeleteQ, keys)
}

/// The requests of `set_multi`: for each item a quiet `set` whose opaque
/// token is the index of the item, then a `noop`.
pub fn set_multi_request(items: &[(Vec<u8>, (Vec<u8>, u32, u32))]) -> (r: MemCachedResult<Vec<u8>>)
    ensures
        match r {
            Ok(bytes) => items_fit(item_views(items@)) && bytes@ == item_batch(item_views(items@)),
            Err(e) => !items_fit(item_views(items@)) && e@ == oversized(),
        },
{
    let n = items.len();
    if n > 0xffff_ffff {
        return Err(Error::new(ErrorKind::OtherError, "request too long for a frame", None));
    }
    let ghost views = item_views(items@);
    let mut out: Vec<u8> = Vec::new();
    let mut i: usize = 0;
    while i < n
        invariant
            i <= n,
            n == items@.len(),
            n <= u32::MAX,
            views == item_views(items@),
            out@ == item_frames(views, i as nat),
            forall|j: int| 0 <= j < i ==> (#[trigger] item_frame(views, j)).fits(),
        decreases n - i,
    {
        let item = &items[i];
        match encode_store(
            Opcode::StoreQ,
            item.0.as_slice(),
            item.1.0.as_slice(),
            item.1.1,
            item.1.2,
            i as u32,
            0,
        ) {
            Ok(frame) => {
                assert(item_frame(views, i as int).fits());
                out.extend_from_slice(frame.as_slice());
                assert(out@ =~= item_frames(views, (i + 1) as nat));
            },
            Err(e) => {
                assert(!item_frame(views, i as int).fits());
                return Err(e);
            },
        }
        i += 1;
    }
    match encode_bare(Opcode::Noop, n as u32) {
        Ok(frame) => {
            out.extend_from_slice(frame.as_slice());
            assert(out@ =~= item_batch(views));
            Ok(out)
        },
        Err(e) => Err(e),
    }
}

/// Whether an error ends a batch at once: it is no answer of the server to
/// one request, so the frames that follow cannot be trusted.
pub open spec fn ends_batch(e: ErrorView) -> bool {
    !(e.kind is MemCachedError)
}

/// The failure of a batch after the server has answered one of its
/// requests with the error `e`: a key that is not found fails nothing, and
/// of the other failures the first stays.
pub open spec fn spec_note(failure: Option<ErrorView>, e: ErrorView) -> Option<ErrorView> {
    if failure is Some || e.kind == ErrorKind::MemCachedError(Status::KeyNotFound) {
        failure
    } else {
        Some(e)
    }
}

/// The content of a failure, if there is one.
pub open spec fn failure_view(failure: Option<Error>) -> Option<ErrorView> {
    match failure {
        Some(e) => Some(e@),
        None => None,
    }
}

/// The status that the server answered with, where the error is such an
/// answer.
fn status_of(e: &Error) -> (r: Option<Status>)
    ensures
        match r {
            Some(status) => e@.kind == ErrorKind::MemCachedError(status),
            None => ends_batch(e@),
        },
{
    match &e.kind {
        ErrorKind::MemCachedError(status) => Some(*status),
        _ => None,
    }
}

/// Takes note of the failure of one request of a batch.
fn note(failure: Option<Error>, e: Error, status: Status) -> (r: Option<Error>)
    requires
        e@.kind == ErrorKind::MemCachedError(status),
    ensures
        failure_view(r) == spec_note(failure_view(failure), e@),
{
    if failure.is_some() || status == Status::KeyNotFound {
        failure
    } else {
        Some(e)
    }
}

/// What the next frame makes of a batch of quiet requests that return
/// nothing. The answer to the `noop` ends the batch, with its first failure
/// if it has one. An answer to another request that says "no error" changes
/// nothing.
pub open spec fn spec_quiet_step(
    failure: Option<ErrorView>,
    event: Result<ResponseView, ErrorView>,
) -> Step<Option<ErrorView>, Result<(), ErrorView>> {
    match event {
        Err(e) => if ends_batch(e) {
            Step::Done(Err(e))
        } else {
            Step::More(spec_note(failure, e))
        },
        Ok(response) => if response.opcode == OPCODE_NOOP {
            Step::Done(
                match failure {
                    Some(e) => Err(e),
                    None => Ok(()),
                },
            )
        } else {
            Step::More(failure)
        },
    }
}

/// The collector of the responses to `set_multi` and to `delete_multi`.
pub struct QuietBatch {
    failure: Option<Error>,
}

impl View for QuietBatch {
    type V = Option<ErrorView>;

    closed spec fn view(&self) -> Option<ErrorView> {
        failure_view(self.failure)
    }
}

impl QuietBatch {
    /// The collector before the first frame.
    pub fn new() -> (r: QuietBatch)
        ensures
            r@ is None,
    {
        QuietBatch { failure: None }
    }

    /// Hands the next frame of the batch, or the error that came in its
    /// place, to the collector.
    pub fn step(self, event: MemCachedResult<Response>) -> (r: Step<
        QuietBatch,
        MemCachedResult<()>,
    >)
        ensures
            match r {
                Step::More(next) => spec_quiet_step(self@, decoded(event)) == Step::<
                    Option<ErrorView>,
                    Result<(), ErrorView>,
                >::More(next@),
                Step::Done(Ok(())) => spec_quiet_step(self@, decoded(event)) == Step::<
                    Option<ErrorView>,
                    Result<(), ErrorView>,
                >::Done(Ok(())),
                Step::Done(Err(e)) => spec_quiet_step(self@, decoded(event)) == Step::<
                    Option<ErrorView>,
                    Result<(), ErrorView>,
                >::Done(Err(e@)),
            },
    {
        match event {
            Err(e) => match status_of(&e) {
                None => Step::Done(Err(e)),
                Some(status) => Step::More(QuietBatch { failure: note(self.failure, e, status) }),
            },
            Ok(response) => {
                if response.opcode == OPCODE_NOOP {
                    match self.failure {
                        Some(e) => Step::Done(Err(e)),
                        None => Step::Done(Ok(())),
                    }
                } else {
                    Step::More(self)
                }
            },
        }
    }
}

/// The error for a frame that answers no request of the batch.
pub open spec fn unexpected_frame() -> ErrorView {
    ErrorView {
        kind: ErrorKind::MalformedFrame,
        desc: "unexpected frame in a batch"@,
        detail: None,
    }
}

/// The mathematical content of a [`GetMulti`].
pub struct GetMultiView {
    /// The keys that were asked for.
    pub keys: Keys,
    /// For each key, at its index, what the server has sent for it so far.
    pub found: Seq<Option<(Seq<u8>, u32)>>,
    /// The first failure of the batch.
    pub failure: Option<ErrorView>,
}

impl GetMultiView {
    /// The batch that asks for `keys`, before the first frame: nothing
    /// found, nothing failed.
    pub open spec fn start(keys: Keys) -> GetMultiView {
        GetMultiView { keys, found: Seq::new(keys.len(), |i: int| None), failure: None }
    }

    /// Whether `response` is the hit for one of the keys: a quiet `getk`
    /// whose opaque token is the index of a key, which holds that key, and
    /// whose extras are the flags.
    pub open spec fn is_hit(self, response: ResponseView) -> bool {
        &&& response.opcode == OPCODE_GETKQ
        &&& response.opaque < self.keys.len()
        &&& response.key == self.keys[response.opaque as int]
        &&& response.extras.len() == 4
    }

    /// The hits among the first `n` keys, in the order of the keys.
    pub open spec fn hits(self, n: nat) -> Hits
        decreases n,
    {
        if n == 0 {
            Seq::empty()
        } else {
            let before = self.hits((n - 1) as nat);
            match self.found[n - 1] {
                Some(hit) => before.push((self.keys[n - 1], hit)),
                None => before,
            }
        }
    }

    /// The number of keys among the first `n` for which a value has come.
    pub open spec fn count(self, n: nat) -> nat
        decreases n,
    {
        if n == 0 {
            0
        } else if self.found[n - 1] is Some {
            self.count((n - 1) as nat) + 1
        } else {
            self.count((n - 1) as nat)
        }
    }

    /// The result of the batch once its last frame has come: its first
    /// failure, or else the hits, without the keys that were not found.
    pub open spec fn result(self) -> Result<Hits, ErrorView> {
        match self.failure {
            Some(e) => Err(e),
            None => Ok(self.hits(self.keys.len())),
        }
    }

    /// What a run of frames, handed over one after the other, makes of
    /// the batch. When the batch is over, the frames that follow are not
    /// looked at.
    pub open spec fn run(self, events: Seq<Result<ResponseView, ErrorView>>) -> Step<
        GetMultiView,
        Result<Hits, ErrorView>,
    >
        decreases events.len(),
    {
        if events.len() == 0 {
            Step::More(self)
        } else {
            match self.run(events.drop_last()) {
                Step::More(batch) => batch.step(events.last()),
                Step::Done(result) => Step::Done(result),
            }
        }
    }

    /// What the next frame makes of the batch. The answer to the `noop`
    /// ends it. A hit is put down for the key whose index it carries. Any
    /// other frame with the status "no error" is malformed.
    pub open spec fn step(self, event: Result<ResponseView, ErrorView>) -> Step<
        GetMultiView,
        Result<Hits, ErrorView>,
    > {
        match event {
            Err(e) => if ends_batch(e) {
                Step::Done(Err(e))
            } else {
                Step::More(GetMultiView { failure: spec_note(self.failure, e), ..self })
            },
            Ok(response) => if response.opcode == OPCODE_NOOP {
                Step::Done(self.result())
            } else if self.is_hit(response) {
                Step::More(
                    GetMultiView {
                        found: self.found.update(
                            response.opaque as int,
                            Some((response.value, from_be32(response.extras))),
                        ),
                        ..self
                    },
                )
            } else {
                Step::Done(Err(unexpected_frame()))
            },
        }
    }
}

/// The collector of the responses to `get_multi`.
pub struct GetMulti {
    keys: Vec<Vec<u8>>,
    found: Vec<Option<(Vec<u8>, u32)>>,
    failure: Option<Error>,
}

impl View for GetMulti {
    type V = GetMultiView;

    closed spec fn view(&self) -> GetMultiView {
        GetMultiView {
            keys: key_views(self.keys@),
            found: Seq::new(
                self.found@.len(),
                |i: int|
                    match self.found@[i] {
                        Some(hit) => Some((hit.0@, hit.1)),
                        None => None,
                    },
            ),
            failure: failure_view(self.failure),
        }
    }
}

/// Whether two runs of bytes are the same.
fn same_bytes(a: &[u8], b: &[u8]) -> (r: bool)
    ensures
        r == (a@ == b@),
{
    if a.len() != b.len() {
        return false;
    }
    let mut i: usize = 0;
    while i < a.len()
        invariant
            i <= a@.len(),
            a@.len() == b@.len(),
            forall|j: int| 0 <= j < i ==> a@[j] == b@[j],
        decreases a@.len() - i,
    {
        if a[i] != b[i] {
            return false;
        }
        i += 1;
    }
    assert(a@ =~= b@);
    true
}

impl GetMulti {
    #[verifier::type_invariant]
    spec fn aligned(&self) -> bool {
        self.found@.len() == self.keys@.len()
    }

    /// The collector for a batch that asks for `keys`, before the first
    /// frame: nothing found, nothing failed.
    pub fn new(keys: Vec<Vec<u8>>) -> (r: GetMulti)
        ensures
            r@ == GetMultiView::start(key_views(keys@)),
    {
        let mut found: Vec<Option<(Vec<u8>, u32)>> = Vec::new();
        let mut i: usize = 0;
        while i < keys.len()
            invariant
                i <= keys@.len(),
                found@.len() == i,
                forall|j: int| 0 <= j < i ==> found@[j] is None,
            decreases keys@.len() - i,
        {
            found.push(None);
            i += 1;
        }
        let r = GetMulti { keys, found, failure: None };
        assert(r@.found =~= GetMultiView::start(key_views(keys@)).found);
        r
    }

    /// The hits of the batch, in the order of the keys.
    fn collect(&self) -> (r: Vec<(Vec<u8>, (Vec<u8>, u32))>)
        ensures
            hit_views(r@) == self@.hits(self@.keys.len()),
    {
        proof {
            use_type_invariant(self);
        }
        let mut out: Vec<(Vec<u8>, (Vec<u8>, u32))> = Vec::new();
        let mut i: usize = 0;
        while i < self.keys.len()
            invariant
                i <= self.keys@.len(),
                self.found@.len() == self.keys@.len(),
                hit_views(out@) == self@.hits(i as nat),
            decreases self.keys@.len() - i,
        {
            let ghost before = hit_views(out@);
            match &self.found[i] {
                Some(hit) => {
                    let key = slice_to_vec(self.keys[i].as_slice());
                    let value = slice_to_vec(hit.0.as_slice());
                    out.push((key, (value, hit.1)));
                    assert(hit_views(out@) =~= before.push(
                        (self@.keys[i as int], (hit.0@, hit.1)),
                    ));
                },
                None => {},
            }
            i += 1;
        }
        out
    }

    /// Hands the next frame of the batch, or the error that came in its
    /// place, to the collector.
    pub fn step(self, event: MemCachedResult<Response>) -> (r: Step<
        GetMulti,
        MemCachedResult<Vec<(Vec<u8>, (Vec<u8>, u32))>>,
    >)
        ensures
            match r {
                Step::More(next) => self@.step(decoded(event)) == Step::<
                    GetMultiView,
                    Result<Hits, ErrorView>,
                >::More(next@),
                Step::Done(Ok(hits)) => self@.step(decoded(event)) == Step::<
                    GetMultiView,
                    Result<Hits, ErrorView>,
                >::Done(Ok(hit_views(hits@))),
                Step::Done(Err(e)) => self@.step(decoded(event)) == Step::<
                    GetMultiView,
                    Result<Hits, ErrorView>,
                >::Done(Err(e@)),
            },
    {
        proof {
            use_type_invariant(&self);
        }
        match event {
            Err(e) => match status_of(&e) {
                None => Step::Done(Err(e)),
                Some(status) => {
                    let next = GetMulti {
                        keys: self.keys,
                        found: self.found,
                        failure: note(self.failure, e, status),
                    };
                    assert(next@.found =~= self@.found);
                    Step::More(next)
                },
            },
            Ok(response) => {
                if response.opcode == OPCODE_NOOP {
                    match self.failure {
                        Some(e) => Step::Done(Err(e)),
                        None => Step::Done(Ok(self.collect())),
                    }
                } else if response.opcode == OPCODE_GETKQ && (response.opaque as usize)
                    < self.keys.len() && same_bytes(
                    response.key.as_slice(),
                    self.keys[response.opaque as usize].as_slice(),
                ) {
                    match flags_of(&response) {
                        Ok(flags) => {
                            let ghost before = self@;
                            let index = response.opaque as usize;
                            let mut found = self.found;
                            found.set(index, Some((response.value, flags)));
                            let next = GetMulti { keys: self.keys, found, failure: self.failure };
                            assert(next@.found =~= before.found.update(
                                index as int,
                                Some((response@.value, flags)),
                            ));
                            Step::More(next)
                        },
                        Err(_) => Step::Done(
                            Err(
                                Error::new(
                                    ErrorKind::MalformedFrame,
                                    "unexpected frame in a batch",
                                    None,
                                ),
                            ),
                        ),
                    }
                } else {
                    Step::Done(
                        Err(
                            Error::new(
                                ErrorKind::MalformedFrame,
                                "unexpected frame in a batch",
                                None,
                            ),
                        ),
                    )
                }
            },
        }
    }
}

/// Of the failures of single requests the first is the failure of the
/// batch, and a key that is not found is no failure.
pub proof fn lemma_first_failure_wins(failure: Option<ErrorView>, e: ErrorView)
    ensures
        failure is Some ==> spec_note(failure, e) == failure,
        e.kind == ErrorKind::MemCachedError(Status::KeyNotFound) ==> spec_note(failure, e)
            == failure,
        failure is None && e.kind != ErrorKind::MemCachedError(Status::KeyNotFound) ==> spec_note(
            failure,
            e,
        ) == Some(e),
{
}

/// The hits of a batch are the keys for which the server has sent a value,
/// one hit for each such key and with that value; a key for which nothing
/// has come gives no hit.
pub proof fn lemma_hits_are_the_found_keys(batch: GetMultiView, n: nat)
    requires
        n <= batch.keys.len(),
        batch.found.len() == batch.keys.len(),
    ensures
        batch.hits(n).len() == batch.count(n),
        batch.count(n) <= n,
        forall|i: int|
            0 <= i < n && (#[trigger] batch.found[i]) is Some ==> batch.hits(n).contains(
                (batch.keys[i], batch.found[i].unwrap()),
            ),
        forall|j: int|
            0 <= j < batch.hits(n).len() ==> exists|i: int|
                0 <= i < n && batch.found[i] == Some((#[trigger] batch.hits(n)[j]).1)
                    && batch.keys[i] == batch.hits(n)[j].0,
    decreases n,
{
    if n > 0 {
        let m = (n - 1) as nat;
        lemma_hits_are_the_found_keys(batch, m);
        let before = batch.hits(m);
        let after = batch.hits(n);
        match batch.found[n - 1] {
            Some(hit) => {
                let entry = (batch.keys[n - 1], hit);
                assert(after == before.push(entry));
                assert(after[after.len() - 1] == entry);
                assert forall|i: int|
                    0 <= i < n && (#[trigger] batch.found[i]) is Some implies after.contains(
                    (batch.keys[i], batch.found[i].unwrap()),
                ) by {
                    if i < m {
                        let e = (batch.keys[i], batch.found[i].unwrap());
                        assert(before.contains(e));
                        let j = choose|j: int| 0 <= j < before.len() && before[j] == e;
                        assert(after[j] == e);
                    }
                }
                assert forall|j: int| 0 <= j < after.len() implies exists|i: int|
                    0 <= i < n && batch.found[i] == Some((#[trigger] after[j]).1) && batch.keys[i]
                        == after[j].0 by {
                    if j < before.len() {
                        assert(after[j] == before[j]);
                        let i = choose|i: int|
                            0 <= i < m && batch.found[i] == Some(before[j].1) && batch.keys[i]
                                == before[j].0;
                        assert(0 <= i < n && batch.found[i] == Some(after[j].1) && batch.keys[i]
                            == after[j].0);
                    } else {
                        assert(batch.found[n - 1] == Some(after[j].1) && batch.keys[n - 1]
                            == after[j].0);
                    }
                }
            },
            None => {
                assert(after == before);
                assert forall|j: int| 0 <= j < after.len() implies exists|i: int|
                    0 <= i < n && batch.found[i] == Some((#[trigger] after[j]).1) && batch.keys[i]
                        == after[j].0 by {
                    let i = choose|i: int|
                        0 <= i < m && batch.found[i] == Some(before[j].1) && batch.keys[i]
                            == before[j].0;
                    assert(0 <= i < n && batch.found[i] == Some(after[j].1) && batch.keys[i]
                        == after[j].0);
                }
            },
        }
    }
}

/// What a server holds for the keys of a batch: for each key, at its
/// index, the value, the flags and the CAS token of the item, or nothing
/// where the key does not exist.
pub type Held = Seq<Option<(Seq<u8>, u32, u64)>>;

/// The frame with which a server answers the quiet `getk` for the key at
/// `index`, where it holds `item` for that key.
pub open spec fn hit_frame(keys: Keys, index: int, item: (Seq<u8>, u32, u64)) -> ResponseView {
    ResponseView {
        opcode: OPCODE_GETKQ,
        status: Status::NoError,
        key: keys[index],
        extras: crate::proto::wire::be32(item.1),
        value: item.0,
        opaque: index as u32,
        cas: item.2,
    }
}

/// The frames with which a server answers the requests for the first `n`
/// keys of a `get_multi`: a hit for each key that it holds, in the order of
/// the requests, and nothing for the others.
pub open spec fn hit_frames(keys: Keys, held: Held, n: nat) -> Seq<Result<ResponseView, ErrorView>>
    decreases n,
{
    if n == 0 {
        Seq::empty()
    } else {
        let before = hit_frames(keys, held, (n - 1) as nat);
        match held[n - 1] {
            Some(item) => before.push(Ok(hit_frame(keys, n - 1, item))),
            None => before,
        }
    }
}

/// What the batch has found after the answers for the first `n` keys.
pub open spec fn found_among(held: Held, n: nat) -> Seq<Option<(Seq<u8>, u32)>> {
    Seq::new(
        held.len(),
        |i: int|
            if i < n {
                match held[i] {
                    Some(item) => Some((item.0, item.1)),
                    None => None,
                }
            } else {
                None
            },
    )
}

/// After the answers for the first `n` keys the batch goes on, and has
/// found those of the first `n` keys that the server holds.
pub proof fn lemma_get_multi_run_collects(keys: Keys, held: Held, n: nat)
    requires
        keys.len() <= u32::MAX,
        held.len() == keys.len(),
        n <= keys.len(),
    ensures
        GetMultiView::start(keys).run(hit_frames(keys, held, n)) == Step::<
            GetMultiView,
            Result<Hits, ErrorView>,
        >::More(GetMultiView { keys, found: found_among(held, n), failure: None }),
    decreases n,
{
    if n == 0 {
        assert(found_among(held, 0) =~= GetMultiView::start(keys).found);
    } else {
        let m = (n - 1) as nat;
        lemma_get_multi_run_collects(keys, held, m);
        let before = GetMultiView { keys, found: found_among(held, m), failure: None };
        match held[n - 1] {
            Some(item) => {
                let frame = hit_frame(keys, n - 1, item);
                let events = hit_frames(keys, held, n);
                assert(events.drop_last() =~= hit_frames(keys, held, m));
                assert(events.last() == Ok::<ResponseView, ErrorView>(frame));
                crate::proto::wire::lemma_be32_round_trip(item.1);
                assert(before.is_hit(frame));
                assert(before.found.update(n - 1, Some((item.0, item.1))) =~= found_among(
                    held,
                    n,
                ));
            },
            None => {
                assert(found_among(held, m) =~= found_among(held, n));
            },
        }
    }
}

/// A `get_multi` returns the keys that exist, and those alone: where the
/// server answers with a hit for each key that it holds and then with the
/// answer to the `noop`, the batch ends at that answer, without error, and
/// its result is the list of the held keys with their values and flags.
pub proof fn lemma_get_multi_returns_held_keys(keys: Keys, held: Held, last: ResponseView)
    requires
        keys.len() <= u32::MAX,
        held.len() == keys.len(),
        last.opcode == OPCODE_NOOP,
    ensures
        GetMultiView::start(keys).run(hit_frames(keys, held, keys.len()).push(Ok(last))) == Step::<
            GetMultiView,
            Result<Hits, ErrorView>,
        >::Done(
            Ok(
                (GetMultiView { keys, found: found_among(held, keys.len()), failure: None }).hits(
                    keys.len(),
                ),
            ),
        ),
{
    lemma_get_multi_run_collects(keys, held, keys.len());
    let events = hit_frames(keys, held, keys.len()).push(Ok(last));
    assert(events.drop_last() =~= hit_frames(keys, held, keys.len()));
    assert(events.last() == Ok::<ResponseView, ErrorView>(last));
}

/// What a run of frames, handed over one after the other, makes of a
/// batch of quiet requests that return nothing. When the batch is over,
/// the frames that follow are not looked at.
pub open spec fn spec_quiet_run(
    failure: Option<ErrorView>,
    events: Seq<Result<ResponseView, ErrorView>>,
) -> Step<Option<ErrorView>, Result<(), ErrorView>>
    decreases events.len(),
{
    if events.len() == 0 {
        Step::More(failure)
    } else {
        match spec_quiet_run(failure, events.drop_last()) {
            Step::More(noted) => spec_quiet_step(noted, events.last()),
            Step::Done(result) => Step::Done(result),
        }
    }
}

/// The failure of a batch whose requests the server has answered with
/// `errors`, in this order.
pub open spec fn first_failure(errors: Seq<ErrorView>) -> Option<ErrorView>
    decreases errors.len(),
{
    if errors.len() == 0 {
        None
    } else {
        spec_note(first_failure(errors.drop_last()), errors.last())
    }
}

/// The errors with which a server answers requests, each as an event.
pub open spec fn refusals(errors: Seq<ErrorView>) -> Seq<Result<ResponseView, ErrorView>> {
    Seq::new(errors.len(), |i: int| Err(errors[i]))
}

/// The failure of a batch is the first answer of the server that is an
/// error other than "key not found"; where there is no such answer, the
/// batch has not failed.
pub proof fn lemma_first_failure_is_the_first(errors: Seq<ErrorView>)
    ensures
        match first_failure(errors) {
            Some(e) => exists|k: int|
                0 <= k < errors.len() && #[trigger] errors[k] == e && e.kind
                    != ErrorKind::MemCachedError(Status::KeyNotFound) && forall|i: int|
                    0 <= i < k ==> (#[trigger] errors[i]).kind == ErrorKind::MemCachedError(
                        Status::KeyNotFound,
                    ),
            None => forall|i: int|
                0 <= i < errors.len() ==> (#[trigger] errors[i]).kind
                    == ErrorKind::MemCachedError(Status::KeyNotFound),
        },
    decreases errors.len(),
{
    if errors.len() > 0 {
        let before = errors.drop_last();
        lemma_first_failure_is_the_first(before);
        match first_failure(before) {
            Some(e) => {
                let k = choose|k: int|
                    0 <= k < before.len() && #[trigger] before[k] == e && e.kind
                        != ErrorKind::MemCachedError(Status::KeyNotFound) && forall|i: int|
                        0 <= i < k ==> (#[trigger] before[i]).kind == ErrorKind::MemCachedError(
                            Status::KeyNotFound,
                        );
                assert(errors[k] == e);
                assert forall|i: int| 0 <= i < k implies (#[trigger] errors[i]).kind
                    == ErrorKind::MemCachedError(Status::KeyNotFound) by {
                    assert(errors[i] == before[i]);
                }
            },
            None => {
                assert forall|i: int| 0 <= i < before.len() implies (#[trigger] errors[i]).kind
                    == ErrorKind::MemCachedError(Status::KeyNotFound) by {
                    assert(errors[i] == before[i]);
                }
                if errors.last().kind != ErrorKind::MemCachedError(Status::KeyNotFound) {
                    let k = errors.len() - 1;
                    assert(errors[k] == errors.last());
                }
            },
        }
    }
}

/// The first failure wins, and it is returned when the batch is over:
/// where the server answers some requests of a batch with errors and then
/// answers the `noop`, the batch goes on until that answer and ends there,
/// with the first failure if there is one and with success if not.
pub proof fn lemma_quiet_run_first_failure_wins(errors: Seq<ErrorView>, last: ResponseView)
    requires
        forall|i: int| 0 <= i < errors.len() ==> !ends_batch(#[trigger] errors[i]),
        last.opcode == OPCODE_NOOP,
    ensures
        spec_quiet_run(None, refusals(errors)) == Step::<
            Option<ErrorView>,
            Result<(), ErrorView>,
        >::More(first_failure(errors)),
        spec_quiet_run(None, refusals(errors).push(Ok(last))) == Step::<
            Option<ErrorView>,
            Result<(), ErrorView>,
        >::Done(
            match first_failure(errors) {
                Some(e) => Err(e),
                None => Ok(()),
            },
        ),
    decreases errors.len(),
{
    if errors.len() > 0 {
        let before = errors.drop_last();
        lemma_quiet_run_first_failure_wins(before, last);
        assert(refusals(errors).drop_last() =~= refusals(before));
        assert(refusals(errors).last() == Err::<ResponseView, ErrorView>(errors.last()));
    }
    let events = refusals(errors).push(Ok(last));
    assert(events.drop_last() =~= refusals(errors));
    assert(events.last() == Ok::<ResponseView, ErrorView>(last));
}

} // verus!
