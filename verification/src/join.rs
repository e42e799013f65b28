//! The fan-in join: one root computation over two children.
#![allow(unused_imports)]
use vstd::prelude::*;

use crate::executor::Volatile;
use crate::{Future, Poll};

verus! {

/// One child's share of a join pass: an already-complete child is left
/// untouched (it is not polled again), an incomplete one is polled once and
/// its result cached if it resolved.
pub open spec fn join_pass<F: Future>(
    child: &F,
    out: Option<F::Output>,
    next_child: &F,
    next_out: Option<F::Output>,
    w0: bool,
    w1: bool,
) -> bool {
    if out is Some {
        &&& next_child == child
        &&& next_out == out
        &&& w1 == w0
    } else {
        exists|rc: Poll<F::Output>|
            {
                &&& child.poll_rel(next_child, rc, w0, w1)
                &&& match rc {
                    Poll::Ready(v) => next_out == Some(v),
                    Poll::Pending => next_out is None,
                }
            }
    }
}

/// A computation that polls each of two children once per pass and is
/// `Ready`, with both results, only when both children are. Children are
/// polled in construction order; a child that has resolved is never polled
/// again.
pub struct Join<A: Future, B: Future> {
    pub a: A,
    pub b: B,
    pub a_out: Option<A::Output>,
    pub b_out: Option<B::Output>,
    pub done: bool,
}

impl<A: Future, B: Future> Join<A, B> {
    pub fn new(a: A, b: B) -> (r: Join<A, B>)
        ensures
            r.a == a,
            r.b == b,
            r.a_out is None,
            r.b_out is None,
            !r.done,
    {
        Join { a, b, a_out: None, b_out: None, done: false }
    }
}

impl<A: Future, B: Future> Future for Join<A, B> {
    type Output = (A::Output, B::Output);

    open spec fn pollable(&self) -> bool {
        &&& !self.done
        &&& self.a_out is Some || self.a.pollable()
        &&& self.b_out is Some || self.b.pollable()
    }

    open spec fn steps(&self) -> nat {
        if self.done {
            0
        } else {
            (if self.a_out is None {
                self.a.steps() + 1
            } else {
                0
            }) + (if self.b_out is None {
                self.b.steps() + 1
            } else {
                0
            })
        }
    }

    open spec fn ready_now(&self) -> bool {
        !self.done && self.a_out is Some && self.b_out is Some
    }

    open spec fn ready_value(&self) -> (A::Output, B::Output) {
        (self.a_out->0, self.b_out->0)
    }

    open spec fn poll_rel(
        &self,
        next: &Self,
        r: Poll<(A::Output, B::Output)>,
        w0: bool,
        w1: bool,
    ) -> bool {
        exists|wm: bool, am: Option<A::Output>, bm: Option<B::Output>|
            {
                &&& join_pass(&self.a, self.a_out, &next.a, am, w0, wm)
                &&& join_pass(&self.b, self.b_out, &next.b, bm, wm, w1)
                &&& match r {
                    Poll::Ready(v) => {
                        &&& am is Some
                        &&& bm is Some
                        &&& v == (am->0, bm->0)
                        &&& next.done
                        &&& next.a_out is None
                        &&& next.b_out is None
                    },
                    Poll::Pending => {
                        &&& !(am is Some && bm is Some)
                        &&& next.a_out == am
                        &&& next.b_out == bm
                        &&& !next.done
                    },
                }
            }
    }

    fn poll(&mut self, wake: &mut Volatile<bool>) -> (r: Poll<(A::Output, B::Output)>) {
        let ghost w0: bool = wake.value();
        let ghost mut ra: Poll<A::Output> = Poll::Pending;
        if self.a_out.is_none() {
            let rr = self.a.poll(wake);
            proof {
                ra = rr;
            }
            match rr {
                Poll::Ready(v) => {
                    self.a_out = Some(v);
                },
                Poll::Pending => {},
            }
        }
        let ghost wm: bool = wake.value();
        let ghost am: Option<A::Output> = self.a_out;
        let ghost mut rb: Poll<B::Output> = Poll::Pending;
        if self.b_out.is_none() {
            let rr = self.b.poll(wake);
            proof {
                rb = rr;
            }
            match rr {
                Poll::Ready(v) => {
                    self.b_out = Some(v);
                },
                Poll::Pending => {},
            }
        }
        let ghost bm: Option<B::Output> = self.b_out;
        let out: Poll<(A::Output, B::Output)> = if self.a_out.is_some() && self.b_out.is_some() {
            let av = self.a_out.take().unwrap();
            let bv = self.b_out.take().unwrap();
            self.done = true;
            Poll::Ready((av, bv))
        } else {
            Poll::Pending
        };
        proof {
            if old(self).a_out is None {
                assert(old(self).a.poll_rel(&self.a, ra, w0, wm));
            }
            if old(self).b_out is None {
                assert(old(self).b.poll_rel(&self.b, rb, wm, wake.value()));
            }
            assert(join_pass(&old(self).a, old(self).a_out, &self.a, am, w0, wm));
            assert(join_pass(&old(self).b, old(self).b_out, &self.b, bm, wm, wake.value()));
        }
        out
    }
}

} // verus!
