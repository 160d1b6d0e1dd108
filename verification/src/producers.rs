//! Producers that come with the library.

use crate::error::Error;
use crate::store::Store;
use crate::transmit::{
    Destination, Poll, StreamAnyProducer, StreamResult, VecBuffer, WriteBuffer,
};
use crate::val::{are_all_unit, Val};
use core::task::Context;
use vstd::prelude::*;

verus! {

/// Whether a producer answers `r` where the future that makes its value answered `polled`: the
/// value or the error, once there is one. As long as there is none, the producer is pending, and
/// has no value where it is asked to finish.
pub open spec fn answers<E: Into<Error>>(
    polled: Poll<Result<Val, E>>,
    finish: bool,
    r: Poll<Result<Option<Val>, Error>>,
) -> bool {
    match polled {
        Poll::Ready(Ok(value)) => r == Poll::Ready(Ok::<Option<Val>, Error>(Some(value))),
        Poll::Ready(Err(error)) => r matches Poll::Ready(Err(e)) && call_ensures(
            <E as Into<Error>>::into,
            (error,),
            e,
        ),
        Poll::Pending => if finish {
            r == Poll::Ready(Ok::<Option<Val>, Error>(None))
        } else {
            r == Poll::<Result<Option<Val>, Error>>::Pending
        },
    }
}

/// The answer of a producer where the future that makes its value answered `polled`.
pub fn produce_polled<E: Into<Error>>(polled: Poll<Result<Val, E>>, finish: bool) -> (r: Poll<
    Result<Option<Val>, Error>,
>)
    ensures
        answers(polled, finish, r),
{
    match polled {
        Poll::Ready(Ok(value)) => Poll::Ready(Ok(Some(value))),
        Poll::Ready(Err(error)) => Poll::Ready(Err(error.into())),
        Poll::Pending => if finish {
            Poll::Ready(Ok(None))
        } else {
            Poll::Pending
        },
    }
}

/// A stream without items: [`futures::stream::Empty`]. Nothing is said of what it holds.
#[verifier::external_type_specification]
#[verifier::external_body]
#[verifier::reject_recursive_types(T)]
pub struct ExStreamEmpty<T>(futures::stream::Empty<T>);

/// An iterator without items: [`core::iter::Empty`]. Nothing is said of what it holds.
#[verifier::external_type_specification]
#[verifier::external_body]
#[verifier::reject_recursive_types(T)]
pub struct ExIterEmpty<T>(core::iter::Empty<T>);

/// The end of a stream that never had an item.
impl<D> StreamAnyProducer<D> for core::iter::Empty<Val> {
    type Buffer = Option<Val>;

    open spec fn produced(
        before: (Self, Store<D>, Seq<Val>, Context<'_>),
        finish: bool,
        after: (Self, Store<D>, Seq<Val>, Context<'_>),
        r: Poll<Result<StreamResult, Error>>,
    ) -> bool {
        after == before && r == Poll::Ready(Ok::<StreamResult, Error>(StreamResult::Dropped))
    }

    /// There is no item that is another value.
    open spec fn unit_only(&self) -> bool {
        true
    }

    fn makes_unit(&self) -> (r: bool) {
        true
    }

    fn poll_produce(
        &mut self,
        cx: &mut Context<'_>,
        store: &mut Store<D>,
        destination: &mut Destination<Option<Val>>,
        finish: bool,
    ) -> (r: Poll<Result<StreamResult, Error>>) {
        Poll::Ready(Ok(StreamResult::Dropped))
    }
}

/// The end of a stream that never had an item.
impl<D> StreamAnyProducer<D> for futures::stream::Empty<Val> {
    type Buffer = Option<Val>;

    open spec fn produced(
        before: (Self, Store<D>, Seq<Val>, Context<'_>),
        finish: bool,
        after: (Self, Store<D>, Seq<Val>, Context<'_>),
        r: Poll<Result<StreamResult, Error>>,
    ) -> bool {
        after == before && r == Poll::Ready(Ok::<StreamResult, Error>(StreamResult::Dropped))
    }

    /// There is no item that is another value.
    open spec fn unit_only(&self) -> bool {
        true
    }

    fn makes_unit(&self) -> (r: bool) {
        true
    }

    fn poll_produce(
        &mut self,
        cx: &mut Context<'_>,
        store: &mut Store<D>,
        destination: &mut Destination<Option<Val>>,
        finish: bool,
    ) -> (r: Poll<Result<StreamResult, Error>>) {
        Poll::Ready(Ok(StreamResult::Dropped))
    }
}

/// Delivers all items at once.
impl<D> StreamAnyProducer<D> for Vec<Val> {
    type Buffer = VecBuffer;

    open spec fn produced(
        before: (Self, Store<D>, Seq<Val>, Context<'_>),
        finish: bool,
        after: (Self, Store<D>, Seq<Val>, Context<'_>),
        r: Poll<Result<StreamResult, Error>>,
    ) -> bool {
        &&& after.0@ == Seq::<Val>::empty()
        &&& after.1 == before.1
        &&& after.2 == before.0@
        &&& after.3 == before.3
        &&& r == Poll::Ready(Ok::<StreamResult, Error>(StreamResult::Dropped))
    }

    open spec fn unit_only(&self) -> bool {
        crate::val::all_unit(self@)
    }

    fn makes_unit(&self) -> (r: bool) {
        are_all_unit(self.as_slice())
    }

    fn poll_produce(
        &mut self,
        cx: &mut Context<'_>,
        store: &mut Store<D>,
        destination: &mut Destination<VecBuffer>,
        finish: bool,
    ) -> (r: Poll<Result<StreamResult, Error>>) {
        let mut items: Vec<Val> = Vec::new();
        std::mem::swap(self, &mut items);
        destination.set_buffer(items.into());
        Poll::Ready(Ok(StreamResult::Dropped))
    }
}

/// Delivers all items at once.
impl<D> StreamAnyProducer<D> for Box<[Val]> {
    type Buffer = VecBuffer;

    open spec fn produced(
        before: (Self, Store<D>, Seq<Val>, Context<'_>),
        finish: bool,
        after: (Self, Store<D>, Seq<Val>, Context<'_>),
        r: Poll<Result<StreamResult, Error>>,
    ) -> bool {
        &&& after.0@ == Seq::<Val>::empty()
        &&& after.1 == before.1
        &&& after.2 == before.0@
        &&& after.3 == before.3
        &&& r == Poll::Ready(Ok::<StreamResult, Error>(StreamResult::Dropped))
    }

    open spec fn unit_only(&self) -> bool {
        crate::val::all_unit(self@)
    }

    fn makes_unit(&self) -> (r: bool) {
        are_all_unit(self)
    }

    fn poll_produce(
        &mut self,
        cx: &mut Context<'_>,
        store: &mut Store<D>,
        destination: &mut Destination<VecBuffer>,
        finish: bool,
    ) -> (r: Poll<Result<StreamResult, Error>>) {
        let mut items: Box<[Val]> = Box::new([]);
        assert(items@ =~= Seq::<Val>::empty());
        std::mem::swap(self, &mut items);
        destination.set_buffer(items.into_vec().into());
        Poll::Ready(Ok(StreamResult::Dropped))
    }
}

} // verus!
