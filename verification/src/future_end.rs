//! The ends of a future as ends of a stream of one item.

use crate::error::Error;
use crate::store::Store;
use crate::transmit::{
    Destination, FutureAnyConsumer, FutureAnyProducer, Poll, Source, StreamAnyConsumer,
    StreamAnyProducer, StreamResult, WriteBuffer,
};
use crate::val::Val;
use core::task::Context;
use vstd::prelude::*;

verus! {

/// The write end of a future as the write end of a stream.
pub struct Producer<P>(pub P);

/// The read end of a future as the read end of a stream.
pub struct Consumer<C>(pub C);

/// What the write end answers when the producer of the value answered `polled`.
///
/// The value is the last item there will be, and the answer is `Completed` even so: the other end
/// is told that one item arrived, not that this end is gone. There will be no other poll, as the
/// future has its value.
pub open spec fn produce_outcome(polled: Poll<Result<Option<Val>, Error>>) -> Poll<
    Result<StreamResult, Error>,
> {
    match polled {
        Poll::Ready(Ok(Some(_))) => Poll::Ready(Ok(StreamResult::Completed)),
        Poll::Ready(Ok(None)) => Poll::Ready(Ok(StreamResult::Cancelled)),
        Poll::Ready(Err(error)) => Poll::Ready(Err(error)),
        Poll::Pending => Poll::Pending,
    }
}

/// The items delivered after the producer of the value answered `polled`.
pub open spec fn delivered(
    polled: Poll<Result<Option<Val>, Error>>,
    before: Seq<Val>,
) -> Seq<Val> {
    match polled {
        Poll::Ready(Ok(Some(value))) => seq![value],
        _ => before,
    }
}

/// Delivers what the producer of the value answered.
pub fn deliver_polled(
    polled: Poll<Result<Option<Val>, Error>>,
    destination: &mut Destination<Option<Val>>,
) -> (r: Poll<Result<StreamResult, Error>>)
    ensures
        r == produce_outcome(polled),
        polled matches Poll::Ready(Ok(Some(value))) ==> final(destination).buffer == Some(value),
        !(polled matches Poll::Ready(Ok(Some(_)))) ==> *final(destination) == *old(destination),
{
    match polled {
        Poll::Ready(Ok(Some(value))) => {
            destination.set_buffer(Some(value));
            Poll::Ready(Ok(StreamResult::Completed))
        },
        Poll::Ready(Ok(None)) => Poll::Ready(Ok(StreamResult::Cancelled)),
        Poll::Ready(Err(error)) => Poll::Ready(Err(error)),
        Poll::Pending => Poll::Pending,
    }
}

impl<D, P: FutureAnyProducer<D>> StreamAnyProducer<D> for Producer<P> {
    type Buffer = Option<Val>;

    open spec fn produced(
        before: (Self, Store<D>, Seq<Val>, Context<'_>),
        finish: bool,
        after: (Self, Store<D>, Seq<Val>, Context<'_>),
        r: Poll<Result<StreamResult, Error>>,
    ) -> bool {
        exists|polled: Poll<Result<Option<Val>, Error>>|
            {
                &&& #[trigger] P::produced(
                    (before.0.0, before.1, before.3),
                    finish,
                    (after.0.0, after.1, after.3),
                    polled,
                )
                &&& r == produce_outcome(polled)
                &&& after.2 == delivered(polled, before.2)
            }
    }

    open spec fn unit_only(&self) -> bool {
        self.0.unit_only()
    }

    fn makes_unit(&self) -> (r: bool) {
        self.0.makes_unit()
    }

    fn poll_produce(
        &mut self,
        cx: &mut Context<'_>,
        store: &mut Store<D>,
        destination: &mut Destination<Option<Val>>,
        finish: bool,
    ) -> (r: Poll<Result<StreamResult, Error>>) {
        let polled = self.0.poll_produce(cx, store, finish);
        let r = deliver_polled(polled, destination);
        proof {
            let before = (*old(self), *old(store), old(destination).buffer.items(), *old(cx));
            let after = (*self, *store, destination.buffer.items(), *cx);
            assert(P::produced(
                (before.0.0, before.1, before.3),
                finish,
                (after.0.0, after.1, after.3),
                polled,
            ));
            assert(after.2 == delivered(polled, before.2));
        }
        r
    }
}

/// What the read end answers when the consumer of the value answered `polled` and left
/// `remaining` items.
///
/// As with the write end, a value that was taken makes the answer `Completed`.
pub open spec fn consume_outcome(polled: Poll<Result<(), Error>>, remaining: nat) -> Poll<
    Result<StreamResult, Error>,
> {
    match polled {
        Poll::Ready(Ok(())) => Poll::Ready(
            Ok(
                if remaining == 0 {
                    StreamResult::Completed
                } else {
                    StreamResult::Cancelled
                },
            ),
        ),
        Poll::Ready(Err(error)) => Poll::Ready(Err(error)),
        Poll::Pending => Poll::Pending,
    }
}

/// The answer of the read end to what the consumer of the value answered.
pub fn answer_polled(polled: Poll<Result<(), Error>>, remaining: usize) -> (r: Poll<
    Result<StreamResult, Error>,
>)
    ensures
        r == consume_outcome(polled, remaining as nat),
{
    match polled {
        Poll::Ready(Ok(())) => Poll::Ready(
            Ok(
                if remaining == 0 {
                    StreamResult::Completed
                } else {
                    StreamResult::Cancelled
                },
            ),
        ),
        Poll::Ready(Err(error)) => Poll::Ready(Err(error)),
        Poll::Pending => Poll::Pending,
    }
}

impl<D: 'static, C: FutureAnyConsumer<D>> StreamAnyConsumer<D> for Consumer<C> {
    open spec fn consumed(
        before: (Self, Store<D>, Seq<Val>, Context<'_>),
        finish: bool,
        after: (Self, Store<D>, Seq<Val>, Context<'_>),
        r: Poll<Result<StreamResult, Error>>,
    ) -> bool {
        exists|polled: Poll<Result<(), Error>>|
            {
                &&& #[trigger] C::consumed(
                    (before.0.0, before.1, before.2, before.3),
                    finish,
                    (after.0.0, after.1, after.2, after.3),
                    polled,
                )
                &&& r == consume_outcome(polled, after.2.len())
            }
    }

    fn poll_consume(
        &mut self,
        cx: &mut Context<'_>,
        store: &mut Store<D>,
        source: &mut Source,
        finish: bool,
    ) -> (r: Poll<Result<StreamResult, Error>>) {
        let polled = self.0.poll_consume(cx, store, source, finish);
        let r = answer_polled(polled, source.remaining());
        proof {
            let before = (*old(self), *old(store), old(source)@, *old(cx));
            let after = (*self, *store, source@, *cx);
            assert(C::consumed(
                (before.0.0, before.1, before.2, before.3),
                finish,
                (after.0.0, after.1, after.2, after.3),
                polled,
            ));
        }
        r
    }
}

} // verus!
