use vstd::prelude::*;

use crate::context::{lemma_keeps_one, lemma_registers_kept, same_surroundings, GraphicsContext};
use crate::driver::{
    initial_driver, lemma_driver_run_push, DriverCall, GL_TIME_ELAPSED,
};
use crate::sync::{keeps_pipeline_prefix_state, lemma_neutral_step};

verus! {

/// Measures the duration of a span of driver work: `begin_query` and
/// `end_query` bracket the span, and the result is polled later, often a
/// frame or more after submission.
///
/// Only a single query can be measured at any moment in time.
#[derive(Debug, PartialEq, Eq, Structural, Clone, Copy)]
pub struct ElapsedQuery {
    pub gl_query: u32,
}

impl ElapsedQuery {
    pub fn new() -> (r: ElapsedQuery)
        ensures
            r.gl_query == 0,
    {
        ElapsedQuery { gl_query: 0 }
    }

    /// Submit the beginning of an elapsed-time query, allocating the
    /// driver-side query object on first use.
    pub fn begin_query(&mut self, ctx: &mut GraphicsContext)
        requires
            old(ctx).wf(),
            old(self).gl_query == 0 ==> old(ctx).driver.next_id < u32::MAX,
        ensures
            final(ctx).wf(),
            final(ctx).cache@ == old(ctx).cache@,
            old(self).gl_query == 0 ==> {
                &&& final(self).gl_query == old(ctx).driver.next_id
                &&& final(ctx).driver.next_id == old(ctx).driver.next_id + 1
                &&& final(ctx).driver.calls@ == old(ctx).driver.calls@ + seq![
                    DriverCall::GenQuery { query: old(ctx).driver.next_id },
                    DriverCall::BeginQuery {
                        target: GL_TIME_ELAPSED,
                        query: old(ctx).driver.next_id,
                    },
                ]
            },
            old(self).gl_query != 0 ==> {
                &&& final(self).gl_query == old(self).gl_query
                &&& final(ctx).driver.next_id == old(ctx).driver.next_id
                &&& final(ctx).driver.calls@ == old(ctx).driver.calls@.push(
                    DriverCall::BeginQuery {
                        target: GL_TIME_ELAPSED,
                        query: old(self).gl_query,
                    },
                )
            },
            same_surroundings(*old(ctx), *final(ctx)),
    {
        let ghost init = initial_driver(ctx.default_framebuffer);
        let ghost inst = ctx.features.instancing;
        if self.gl_query == 0 {
            let id = ctx.driver.alloc_id();
            self.gl_query = id;
            let ghost d0 = ctx.replayed();
            let gen = DriverCall::GenQuery { query: id };
            ctx.driver.emit(gen);
            proof {
                lemma_driver_run_push(init, old(ctx).driver.calls@, gen);
                lemma_neutral_step(ctx.cache@, d0, gen, inst);
            }
        }
        let ghost d1 = ctx.replayed();
        let ghost calls1 = ctx.driver.calls@;
        let beg = DriverCall::BeginQuery { target: GL_TIME_ELAPSED, query: self.gl_query };
        ctx.driver.emit(beg);
        proof {
            lemma_driver_run_push(init, calls1, beg);
            lemma_neutral_step(ctx.cache@, d1, beg, inst);
            if old(self).gl_query == 0 {
                let gen2 = DriverCall::GenQuery { query: old(ctx).driver.next_id };
                let pair = seq![gen2, beg];
                assert(ctx.driver.calls@ =~= old(ctx).driver.calls@ + pair);
                assert(forall|i: int|
                    0 <= i < pair.len() ==> keeps_pipeline_prefix_state(#[trigger] pair[i]));
                lemma_registers_kept(init, old(ctx).driver.calls@, pair);
            } else {
                lemma_keeps_one(beg);
                assert(ctx.driver.calls@ =~= old(ctx).driver.calls@ + seq![beg]);
                lemma_registers_kept(init, old(ctx).driver.calls@, seq![beg]);
            }
        }
    }

    /// Submit the end of the elapsed-time query; the result can be read
    /// once rendering is complete.
    pub fn end_query(&mut self, ctx: &mut GraphicsContext)
        requires
            old(ctx).wf(),
        ensures
            final(ctx).wf(),
            *final(self) == *old(self),
            final(ctx).cache@ == old(ctx).cache@,
            final(ctx).driver.calls@ == old(ctx).driver.calls@.push(
                DriverCall::EndQuery { target: GL_TIME_ELAPSED },
            ),
            final(ctx).driver.next_id == old(ctx).driver.next_id,
            same_surroundings(*old(ctx), *final(ctx)),
    {
        let ghost init = initial_driver(ctx.default_framebuffer);
        let ghost d0 = ctx.replayed();
        let end = DriverCall::EndQuery { target: GL_TIME_ELAPSED };
        ctx.driver.emit(end);
        proof {
            lemma_driver_run_push(init, old(ctx).driver.calls@, end);
            lemma_neutral_step(ctx.cache@, d0, end, ctx.features.instancing);
            lemma_keeps_one(end);
            assert(ctx.driver.calls@ =~= old(ctx).driver.calls@ + seq![end]);
            lemma_registers_kept(init, old(ctx).driver.calls@, seq![end]);
        }
    }

    /// Retrieve the measured duration in nanoseconds. This backend does not
    /// implement result readback and always reports 0.
    pub fn get_result(&self) -> (r: u64)
        ensures
            r == 0,
    {
        0
    }

    /// Whether elapsed-time queries are available. This backend does not
    /// implement them.
    pub fn is_supported() -> (r: bool)
        ensures
            r == false,
    {
        false
    }

    /// Whether the submitted query's result is ready for retrieval. This
    /// backend does not implement result readback and always reports false.
    pub fn is_available(&self) -> (r: bool)
        ensures
            r == false,
    {
        false
    }

    /// Release the driver-side query object.
    pub fn delete(&mut self, ctx: &mut GraphicsContext)
        requires
            old(ctx).wf(),
        ensures
            final(ctx).wf(),
            final(self).gl_query == 0,
            final(ctx).cache@ == old(ctx).cache@,
            final(ctx).driver.calls@ == old(ctx).driver.calls@.push(
                DriverCall::DeleteQuery { query: old(self).gl_query },
            ),
            final(ctx).driver.next_id == old(ctx).driver.next_id,
            same_surroundings(*old(ctx), *final(ctx)),
    {
        let ghost init = initial_driver(ctx.default_framebuffer);
        let ghost d0 = ctx.replayed();
        let del = DriverCall::DeleteQuery { query: self.gl_query };
        ctx.driver.emit(del);
        self.gl_query = 0;
        proof {
            lemma_driver_run_push(init, old(ctx).driver.calls@, del);
            lemma_neutral_step(ctx.cache@, d0, del, ctx.features.instancing);
            lemma_keeps_one(del);
            assert(ctx.driver.calls@ =~= old(ctx).driver.calls@ + seq![del]);
            lemma_registers_kept(init, old(ctx).driver.calls@, seq![del]);
        }
    }
}

} // verus!
