//! The host's ends of futures and streams: producers, which write, and consumers, which read.

use crate::component_type::{ComponentType, TypeId};
use crate::error::Error;
use crate::store::{Store, TableId, TransmitKind};
use crate::val::Val;
use core::task::Context;
use vstd::prelude::*;

verus! {

/// The context of a poll, which says whom to wake: [`core::task::Context`]. Nothing is said of
/// what it holds.
#[verifier::external_type_specification]
#[verifier::external_body]
pub struct ExContext<'a>(core::task::Context<'a>);

/// The answer to a poll.
#[derive(Debug)]
pub enum Poll<T> {
    Ready(T),
    Pending,
}

/// How a producer or consumer leaves the stream after it was polled.
#[derive(Clone, Copy, PartialEq, Eq, Structural, Debug)]
pub enum StreamResult {
    /// The read or write is over, and there may be another.
    Completed,
    /// The read or write was given up at the request of the other end.
    Cancelled,
    /// This end is gone: it takes part in no further read or write.
    Dropped,
}

/// How a write ended, as the writing end learns it, with the number of items that were taken.
#[derive(Clone, Copy, PartialEq, Eq, Structural, Debug)]
pub enum ReturnCode {
    Completed(usize),
    Dropped(usize),
    Cancelled(usize),
}

/// Items on their way to a reader.
pub trait WriteBuffer: Sized {
    /// The items, in the order in which they are delivered.
    spec fn items(&self) -> Seq<Val>;

    /// Hands the items out.
    fn into_items(self) -> (r: Vec<Val>)
        ensures
            r@ == self.items(),
    ;
}

/// A buffer for at most one item.
impl WriteBuffer for Option<Val> {
    open spec fn items(&self) -> Seq<Val> {
        match *self {
            Some(value) => seq![value],
            None => Seq::empty(),
        }
    }

    fn into_items(self) -> (r: Vec<Val>) {
        let mut r: Vec<Val> = Vec::new();
        if let Some(value) = self {
            r.push(value);
        }
        assert(r@ =~= self.items());
        r
    }
}

/// A buffer for any number of items.
pub struct VecBuffer {
    pub items: Vec<Val>,
}

impl WriteBuffer for VecBuffer {
    open spec fn items(&self) -> Seq<Val> {
        self.items@
    }

    fn into_items(self) -> (r: Vec<Val>) {
        self.items
    }
}

impl Default for VecBuffer {
    fn default() -> (r: VecBuffer)
        ensures
            r.items@ == Seq::<Val>::empty(),
    {
        VecBuffer { items: Vec::new() }
    }
}

impl From<Vec<Val>> for VecBuffer {
    fn from(items: Vec<Val>) -> (r: VecBuffer) {
        VecBuffer { items }
    }
}

impl vstd::std_specs::convert::FromSpecImpl<Vec<Val>> for VecBuffer {
    open spec fn obeys_from_spec() -> bool {
        true
    }

    open spec fn from_spec(items: Vec<Val>) -> VecBuffer {
        VecBuffer { items }
    }
}

/// Where a producer puts the items that it delivers.
pub struct Destination<B> {
    pub buffer: B,
}

impl<B: WriteBuffer> Destination<B> {
    /// Delivers the items of `buffer`.
    pub fn set_buffer(&mut self, buffer: B)
        ensures
            final(self).buffer == buffer,
    {
        self.buffer = buffer;
    }
}

/// Where a consumer takes the items that were written.
pub struct Source {
    items: Vec<Val>,
}

impl View for Source {
    type V = Seq<Val>;

    /// The items that were not taken yet.
    closed spec fn view(&self) -> Seq<Val> {
        self.items@
    }
}

impl Source {
    /// A source of the given items.
    pub fn new(items: Vec<Val>) -> (r: Source)
        ensures
            r@ == items@,
    {
        Source { items }
    }

    /// How many items were not taken yet.
    pub fn remaining(&self) -> (r: usize)
        ensures
            r == self@.len(),
    {
        self.items.len()
    }

    /// Takes the next item, `None` if there is none.
    pub fn read_val(&mut self) -> (r: Option<Val>)
        ensures
            old(self)@.len() == 0 ==> r is None && final(self)@ == old(self)@,
            old(self)@.len() > 0 ==> r == Some(old(self)@[0]) && final(self)@ == old(self)@.skip(1),
    {
        if self.items.len() == 0 {
            None
        } else {
            let value = self.items.remove(0);
            assert(self.items@ =~= old(self).items@.skip(1));
            Some(value)
        }
    }
}

/// Whether `after` is what is left of `before` when some first items are taken.
pub open spec fn is_rest(before: Seq<Val>, after: Seq<Val>) -> bool {
    after.len() <= before.len() && after == before.skip(before.len() - after.len())
}

/// An object whose Rust type is no longer known but by its identity.
pub trait AnyObject {
    /// What [`AnyObject::type_of`] returns.
    spec fn spec_type_of(&self) -> TypeId;

    /// The identity of the object's type.
    fn type_of(&self) -> (r: TypeId)
        ensures
            r == self.spec_type_of(),
    ;
}

impl<T: ComponentType> AnyObject for T {
    open spec fn spec_type_of(&self) -> TypeId {
        T::spec_type_id()
    }

    fn type_of(&self) -> (r: TypeId) {
        T::type_id()
    }
}

/// Represents the host-owned write end of a type-erased stream.
pub trait StreamAnyProducer<D>: Sized + Send + 'static {
    /// The buffer to use when delivering items.
    type Buffer: WriteBuffer + Default;

    /// Whether a poll can turn `before` into `after` and answer `r`, where the four parts are
    /// the producer, the store, the items delivered and the context of the poll. A producer that
    /// does not say can do anything.
    open spec fn produced(
        before: (Self, Store<D>, Seq<Val>, Context<'_>),
        finish: bool,
        after: (Self, Store<D>, Seq<Val>, Context<'_>),
        r: Poll<Result<StreamResult, Error>>,
    ) -> bool {
        true
    }

    /// What [`StreamAnyProducer::makes_unit`] returns.
    open spec fn unit_only(&self) -> bool {
        false
    }

    /// Whether all items that the producer makes are the unit value.
    fn makes_unit(&self) -> (r: bool)
        ensures
            r == self.unit_only(),
    ;

    /// Handle a host- or guest-initiated read by delivering zero or more items to the specified
    /// destination.
    ///
    /// `finish` asks to end the read now, with what there is.
    fn poll_produce(
        &mut self,
        cx: &mut Context<'_>,
        store: &mut Store<D>,
        destination: &mut Destination<Self::Buffer>,
        finish: bool,
    ) -> (r: Poll<Result<StreamResult, Error>>)
        requires
            old(store).wf(),
        ensures
            final(store).wf(),
            final(store)@.later(old(store)@),
            old(self).unit_only() ==> final(self).unit_only(),
            old(self).unit_only() && crate::val::all_unit(old(destination).buffer.items())
                ==> crate::val::all_unit(final(destination).buffer.items()),
            Self::produced(
                (*old(self), *old(store), old(destination).buffer.items(), *old(cx)),
                finish,
                (*final(self), *final(store), final(destination).buffer.items(), *final(cx)),
                r,
            ),
    ;

    /// Attempt to convert the object into one which is of the specified type.
    ///
    /// By default the object comes back as it is.
    fn try_into(me: Self, ty: TypeId) -> (r: Result<Box<dyn AnyObject>, Self>)
        ensures
            r matches Ok(object) ==> object.spec_type_of() == ty,
        default_ensures
            r == Err::<Box<dyn AnyObject>, Self>(me),
    {
        Err(me)
    }
}

/// Represents the host-owned read end of a type-erased stream.
pub trait StreamAnyConsumer<D>: Sized + Send + 'static {
    /// Whether a poll can turn `before` into `after` and answer `r`, where the four parts are
    /// the consumer, the store, the items not taken yet and the context of the poll. A consumer
    /// that does not say can do anything.
    open spec fn consumed(
        before: (Self, Store<D>, Seq<Val>, Context<'_>),
        finish: bool,
        after: (Self, Store<D>, Seq<Val>, Context<'_>),
        r: Poll<Result<StreamResult, Error>>,
    ) -> bool {
        true
    }

    /// Handle a host- or guest-initiated write by accepting zero or more items from the
    /// specified source.
    ///
    /// `finish` asks to end the write now, with what was taken.
    fn poll_consume(
        &mut self,
        cx: &mut Context<'_>,
        store: &mut Store<D>,
        source: &mut Source,
        finish: bool,
    ) -> (r: Poll<Result<StreamResult, Error>>)
        requires
            old(store).wf(),
        ensures
            final(store).wf(),
            final(store)@.later(old(store)@),
            is_rest(old(source)@, final(source)@),
            Self::consumed(
                (*old(self), *old(store), old(source)@, *old(cx)),
                finish,
                (*final(self), *final(store), final(source)@, *final(cx)),
                r,
            ),
    ;
}

/// Represents the host-owned write end of a type-erased future.
pub trait FutureAnyProducer<D>: Sized + Send + 'static {
    /// Whether a poll can turn `before` into `after` and answer `r`, where the three parts are
    /// the producer, the store and the context of the poll. A producer that does not say can do
    /// anything.
    open spec fn produced(
        before: (Self, Store<D>, Context<'_>),
        finish: bool,
        after: (Self, Store<D>, Context<'_>),
        r: Poll<Result<Option<Val>, Error>>,
    ) -> bool {
        true
    }

    /// What [`FutureAnyProducer::makes_unit`] returns.
    open spec fn unit_only(&self) -> bool {
        false
    }

    /// Whether the value that the producer makes is the unit value.
    fn makes_unit(&self) -> (r: bool)
        ensures
            r == self.unit_only(),
    ;

    /// Handle a host- or guest-initiated read by producing a value.
    ///
    /// `finish` asks to end the read now; `None` then says that there is no value yet.
    fn poll_produce(
        &mut self,
        cx: &mut Context<'_>,
        store: &mut Store<D>,
        finish: bool,
    ) -> (r: Poll<Result<Option<Val>, Error>>)
        requires
            old(store).wf(),
        ensures
            final(store).wf(),
            final(store)@.later(old(store)@),
            old(self).unit_only() ==> final(self).unit_only(),
            old(self).unit_only() ==> (r matches Poll::Ready(Ok(Some(value)))
                ==> value.is_unit_spec()),
            Self::produced(
                (*old(self), *old(store), *old(cx)),
                finish,
                (*final(self), *final(store), *final(cx)),
                r,
            ),
    ;
}

/// Represents the host-owned read end of a type-erased future.
pub trait FutureAnyConsumer<D>: Sized + Send + 'static {
    /// Whether a poll can turn `before` into `after` and answer `r`, where the four parts are
    /// the consumer, the store, the items not taken yet and the context of the poll. A consumer
    /// that does not say can do anything.
    open spec fn consumed(
        before: (Self, Store<D>, Seq<Val>, Context<'_>),
        finish: bool,
        after: (Self, Store<D>, Seq<Val>, Context<'_>),
        r: Poll<Result<(), Error>>,
    ) -> bool {
        true
    }

    /// Handle a host- or guest-initiated write by consuming a value.
    fn poll_consume(
        &mut self,
        cx: &mut Context<'_>,
        store: &mut Store<D>,
        source: &mut Source,
        finish: bool,
    ) -> (r: Poll<Result<(), Error>>)
        requires
            old(store).wf(),
        ensures
            final(store).wf(),
            final(store)@.later(old(store)@),
            is_rest(old(source)@, final(source)@),
            Self::consumed(
                (*old(self), *old(store), old(source)@, *old(cx)),
                finish,
                (*final(self), *final(store), final(source)@, *final(cx)),
                r,
            ),
    ;
}

/// A producer together with the future or stream that it writes to.
pub struct HostWriter<W> {
    pub id: TableId,
    pub kind: TransmitKind,
    pub producer: W,
}

/// A consumer together with the future or stream that it reads from.
pub struct HostReader<R> {
    pub id: TableId,
    pub kind: TransmitKind,
    pub consumer: R,
}

/// What a writer learns when the reader answered `polled` and took `taken` items.
pub open spec fn write_outcome(polled: Poll<Result<StreamResult, Error>>, taken: usize) -> Poll<
    Result<ReturnCode, Error>,
> {
    match polled {
        Poll::Ready(Ok(StreamResult::Completed)) => Poll::Ready(Ok(ReturnCode::Completed(taken))),
        Poll::Ready(Ok(StreamResult::Cancelled)) => Poll::Ready(Ok(ReturnCode::Cancelled(taken))),
        Poll::Ready(Ok(StreamResult::Dropped)) => Poll::Ready(Ok(ReturnCode::Dropped(taken))),
        Poll::Ready(Err(error)) => Poll::Ready(Err(error)),
        Poll::Pending => Poll::Pending,
    }
}

/// What a writer learns when the reader answered `polled` and took `taken` items.
pub fn return_code(polled: Poll<Result<StreamResult, Error>>, taken: usize) -> (r: Poll<
    Result<ReturnCode, Error>,
>)
    ensures
        r == write_outcome(polled, taken),
{
    match polled {
        Poll::Ready(Ok(StreamResult::Completed)) => Poll::Ready(Ok(ReturnCode::Completed(taken))),
        Poll::Ready(Ok(StreamResult::Cancelled)) => Poll::Ready(Ok(ReturnCode::Cancelled(taken))),
        Poll::Ready(Ok(StreamResult::Dropped)) => Poll::Ready(Ok(ReturnCode::Dropped(taken))),
        Poll::Ready(Err(error)) => Poll::Ready(Err(error)),
        Poll::Pending => Poll::Pending,
    }
}

impl<R> HostReader<R> {
    /// Writes the items of `source`: offers them to the consumer, unless the future or stream
    /// was closed.
    pub fn write<D>(
        &mut self,
        cx: &mut Context<'_>,
        store: &mut Store<D>,
        source: &mut Source,
        finish: bool,
    ) -> (r: Poll<Result<ReturnCode, Error>>) where R: StreamAnyConsumer<D>
        requires
            old(store).wf(),
            old(store)@.owns(old(self).id),
        ensures
            final(store).wf(),
            final(store)@.later(old(store)@),
            final(self).id == old(self).id,
            final(self).kind == old(self).kind,
            is_rest(old(source)@, final(source)@),
            final(source)@.len() <= old(source)@.len() <= usize::MAX,
            old(store)@.closed(old(self).id) ==> {
                &&& r == Poll::Ready(Ok::<ReturnCode, Error>(ReturnCode::Dropped(0)))
                &&& *final(self) == *old(self)
                &&& *final(store) == *old(store)
                &&& *final(cx) == *old(cx)
                &&& final(source)@ == old(source)@
            },
            !old(store)@.closed(old(self).id) ==> exists|polled: Poll<Result<StreamResult, Error>>|
                {
                    &&& #[trigger] R::consumed(
                        (old(self).consumer, *old(store), old(source)@, *old(cx)),
                        finish,
                        (final(self).consumer, *final(store), final(source)@, *final(cx)),
                        polled,
                    )
                    &&& r == write_outcome(
                        polled,
                        (old(source)@.len() - final(source)@.len()) as usize,
                    )
                },
    {
        let offered = source.remaining();
        if store.opaque.is_closed(self.id) {
            proof {
                assert(source@ =~= source@.skip(0));
            }
            return Poll::Ready(Ok(ReturnCode::Dropped(0)));
        }
        let polled = self.consumer.poll_consume(cx, store, source, finish);
        let taken = offered - source.remaining();
        return_code(polled, taken)
    }
}

} // verus!
