//! Filters and the graphs they are connected in.
//!
//! A graph is built first and configured once. Configuring checks the graph
//! and fixes its topology: from then on nothing is linked any more.

use vstd::prelude::*;
use crate::native::{Call, Direction, Kind, Library, Reply, Step};
use crate::util::media::Type;
use crate::util::error::Error;

verus! {

/// A filter that the native library has registered. Filters are never freed.
#[derive(Clone, Copy, Debug, PartialEq, Eq, Hash)]
pub struct Filter {
    pub handle: usize,
}

/// An instance of a filter in a graph. The graph owns it: it is freed with
/// the graph, never by itself.
#[derive(Clone, Copy, Debug, PartialEq, Eq, Hash)]
pub struct Context {
    pub handle: usize,
}

/// A connection point of a filter: which filter, which side, which place on
/// that side, and the kind of media that goes through.
#[derive(Clone, Copy, Debug, PartialEq, Eq, Hash)]
pub struct Pad {
    pub filter: usize,
    pub direction: Direction,
    pub index: usize,
    pub medium: Type,
}

/// Where a graph stands.
#[derive(Clone, Copy, Debug, PartialEq, Eq, Hash, Structural)]
pub enum Configuration {
    Unconfigured,
    Configured,
}

/// A filter graph that this wrapper owns. Its stage is the wrapper's own
/// record: nothing but the operations of this crate moves it.
#[derive(Debug, PartialEq, Eq, Hash)]
pub struct Graph {
    pub(crate) handle: usize,
    pub(crate) stage: Configuration,
}

impl Filter {
    /// Wraps a filter that a lookup produced.
    pub fn wrap(handle: usize) -> (filter: Filter)
        requires
            handle != 0,
        ensures
            filter == (Filter { handle }),
    {
        Filter { handle }
    }

    pub fn as_ptr(&self) -> (handle: usize)
        ensures
            handle == self.handle,
    {
        self.handle
    }
}

impl Filter {
    /// Counting the pads of one side: one call, and a count that is
    /// negative is none.
    pub open(crate) spec fn pads_spec(self, direction: Direction, replies: Seq<Reply>) -> Step<(), usize> {
        if replies.len() == 0 {
            Step::Call(Call::PadCount { filter: self.handle, direction }, ())
        } else if replies[0].status < 0 {
            Step::Done(0)
        } else {
            Step::Done(replies[0].status as usize)
        }
    }

    /// The number of pads that the filter has on one side.
    pub fn pads(&self, direction: Direction, replies: &[Reply]) -> (step: Step<(), usize>)
        ensures
            step == self.pads_spec(direction, replies@),
    {
        if replies.len() == 0 {
            Step::Call(Call::PadCount { filter: self.handle, direction }, ())
        } else if replies[0].status < 0 {
            Step::Done(0)
        } else {
            Step::Done(replies[0].status as usize)
        }
    }

    /// Taking a pad by its place: the filter is asked how many pads it has
    /// on that side, and a place at or beyond that number names none. Else
    /// the pad's media kind is read.
    pub open(crate) spec fn pad_spec(self, direction: Direction, index: usize, replies: Seq<Reply>) -> Step<
        (),
        Option<Pad>,
    > {
        if replies.len() == 0 {
            Step::Call(Call::PadCount { filter: self.handle, direction }, ())
        } else if !(index < replies[0].status) {
            Step::Done(None)
        } else if replies.len() == 1 {
            Step::Call(Call::PadType { filter: self.handle, direction, index }, ())
        } else {
            Step::Done(
                Some(
                    Pad {
                        filter: self.handle,
                        direction,
                        index,
                        medium: Type::of(replies[1].status),
                    },
                ),
            )
        }
    }

    /// The pad in the given place on one side of the filter, if the filter
    /// has that many.
    pub fn pad(&self, direction: Direction, index: usize, replies: &[Reply]) -> (step: Step<
        (),
        Option<Pad>,
    >)
        ensures
            step == self.pad_spec(direction, index, replies@),
    {
        if replies.len() == 0 {
            Step::Call(Call::PadCount { filter: self.handle, direction }, ())
        } else if !(replies[0].status > 0 && index < replies[0].status as usize) {
            Step::Done(None)
        } else if replies.len() == 1 {
            Step::Call(Call::PadType { filter: self.handle, direction, index }, ())
        } else {
            Step::Done(
                Some(
                    Pad {
                        filter: self.handle,
                        direction,
                        index,
                        medium: Type::from(replies[1].status),
                    },
                ),
            )
        }
    }
}

impl Context {
    /// Wraps a filter context that a graph has made.
    pub fn wrap(handle: usize) -> (context: Context)
        requires
            handle != 0,
        ensures
            context == (Context { handle }),
    {
        Context { handle }
    }

    pub fn as_ptr(&self) -> (handle: usize)
        ensures
            handle == self.handle,
    {
        self.handle
    }
}

/// The call that registers every filter with a native library that does not
/// do so by itself.
pub fn register_all() -> (call: Call)
    ensures
        call == Call::RegisterFilters,
{
    Call::RegisterFilters
}

/// Registering one filter: status 0 is success, and any other status is
/// the failure.
pub open(crate) spec fn register_spec(filter: Filter, replies: Seq<Reply>) -> Step<
    (),
    Result<(), Error>,
> {
    if replies.len() == 0 {
        Step::Call(Call::RegisterFilter { filter: filter.handle }, ())
    } else if replies[0].status == 0 {
        Step::Done(Ok(()))
    } else {
        Step::Done(Err(Error::of(replies[0].status)))
    }
}

/// Registers one filter.
pub fn register(filter: &Filter, replies: &[Reply]) -> (step: Step<(), Result<(), Error>>)
    ensures
        step == register_spec(*filter, replies@),
{
    if replies.len() == 0 {
        Step::Call(Call::RegisterFilter { filter: filter.handle }, ())
    } else if replies[0].status == 0 {
        Step::Done(Ok(()))
    } else {
        Step::Done(Err(Error::from(replies[0].status)))
    }
}

/// Looking a filter up by name: the filter of that name, or none.
pub open(crate) spec fn find_spec(replies: Seq<Reply>) -> Step<(), Option<Filter>> {
    if replies.len() == 0 {
        Step::Call(Call::FindFilter, ())
    } else if replies[0].handle == 0 {
        Step::Done(None)
    } else {
        Step::Done(Some(Filter { handle: replies[0].handle }))
    }
}

/// Looks up the filter of the name that the embedder holds.
pub fn find(replies: &[Reply]) -> (step: Step<(), Option<Filter>>)
    ensures
        step == find_spec(replies@),
{
    if replies.len() == 0 {
        Step::Call(Call::FindFilter, ())
    } else if replies[0].handle == 0 {
        Step::Done(None)
    } else {
        Step::Done(Some(Filter { handle: replies[0].handle }))
    }
}

impl Graph {
    /// The handle of the graph.
    pub open(crate) spec fn ptr(self) -> usize {
        self.handle
    }

    /// The stage that the graph stands in.
    pub open(crate) spec fn spec_stage(&self) -> Configuration {
        self.stage
    }

    /// The graph of the given handle in the given stage.
    pub open(crate) spec fn at(handle: usize, stage: Configuration) -> Graph {
        Graph { handle, stage }
    }

    /// The stage that the graph stands in.
    #[verifier::when_used_as_spec(spec_stage)]
    pub fn stage(&self) -> (stage: Configuration)
        ensures
            stage == self.spec_stage(),
    {
        self.stage
    }

    /// Wraps a graph that the native library has just allocated.
    pub fn wrap(handle: usize) -> (graph: Graph)
        requires
            handle != 0,
        ensures
            graph == Graph::at(handle, Configuration::Unconfigured),
    {
        Graph { handle, stage: Configuration::Unconfigured }
    }

    pub fn as_ptr(&self) -> (handle: usize)
        ensures
            handle == self.ptr(),
    {
        self.handle
    }

    pub fn as_mut_ptr(&mut self) -> (handle: usize)
        ensures
            handle == old(self).ptr(),
            *final(self) == *old(self),
    {
        self.handle
    }

    /// The call that destroys the graph, and with it every filter context in
    /// it.
    pub fn release(self) -> (calls: Vec<Call>)
        ensures
            calls@ == Kind::Graph.spec_release(self.ptr()),
    {
        Kind::Graph.release(self.handle)
    }

    /// Linking two pads: only while the graph is unconfigured, and a
    /// configured graph is refused before the call. A negative status is the
    /// failure.
    pub open(crate) spec fn link_spec(
        self,
        source: Context,
        output: u32,
        sink: Context,
        input: u32,
        replies: Seq<Reply>,
    ) -> Step<(), Result<(), Error>> {
        if !(self.stage is Unconfigured) {
            Step::Done(Err(Error::InvalidState))
        } else if replies.len() == 0 {
            Step::Call(
                Call::LinkFilters { source: source.handle, output, sink: sink.handle, input },
                (),
            )
        } else if replies[0].status < 0 {
            Step::Done(Err(Error::of(replies[0].status)))
        } else {
            Step::Done(Ok(()))
        }
    }

    /// Connects output pad `output` of `source` to input pad `input` of
    /// `sink`.
    pub fn link(
        &mut self,
        source: &Context,
        output: u32,
        sink: &Context,
        input: u32,
        replies: &[Reply],
    ) -> (step: Step<(), Result<(), Error>>)
        ensures
            step == old(self).link_spec(*source, output, *sink, input, replies@),
            *final(self) == *old(self),
    {
        if self.stage != Configuration::Unconfigured {
            Step::Done(Err(Error::InvalidState))
        } else if replies.len() == 0 {
            Step::Call(
                Call::LinkFilters { source: source.handle, output, sink: sink.handle, input },
                (),
            )
        } else if replies[0].status < 0 {
            Step::Done(Err(Error::from(replies[0].status)))
        } else {
            Step::Done(Ok(()))
        }
    }

    /// The stage after an attempt to configure: a graph that passed the
    /// check is configured.
    pub open(crate) spec fn validated_stage(self, replies: Seq<Reply>) -> Configuration {
        if self.stage is Unconfigured && replies.len() > 0 && replies[0].status >= 0 {
            Configuration::Configured
        } else {
            self.stage
        }
    }

    /// Configuring: only once, and a configured graph is refused before the
    /// call. A negative status is the failure.
    pub open(crate) spec fn validate_spec(self, replies: Seq<Reply>) -> Step<(), Result<(), Error>> {
        if !(self.stage is Unconfigured) {
            Step::Done(Err(Error::InvalidState))
        } else if replies.len() == 0 {
            Step::Call(Call::ConfigGraph { graph: self.handle }, ())
        } else if replies[0].status < 0 {
            Step::Done(Err(Error::of(replies[0].status)))
        } else {
            Step::Done(Ok(()))
        }
    }

    /// Checks the graph and fixes its topology.
    pub fn validate(&mut self, replies: &[Reply]) -> (step: Step<(), Result<(), Error>>)
        ensures
            step == old(self).validate_spec(replies@),
            final(self).ptr() == old(self).ptr(),
            final(self).stage() == old(self).validated_stage(replies@),
    {
        if self.stage != Configuration::Unconfigured {
            Step::Done(Err(Error::InvalidState))
        } else if replies.len() == 0 {
            Step::Call(Call::ConfigGraph { graph: self.handle }, ())
        } else if replies[0].status < 0 {
            Step::Done(Err(Error::from(replies[0].status)))
        } else {
            self.stage = Configuration::Configured;
            Step::Done(Ok(()))
        }
    }
}

/// A configured graph is fixed: linking and configuring again are
/// `InvalidState`, no call is made, and the graph stays configured.
pub proof fn configured_graph_is_fixed(
    graph: Graph,
    source: Context,
    output: u32,
    sink: Context,
    input: u32,
    replies: Seq<Reply>,
)
    requires
        graph.stage() is Configured,
    ensures
        graph.link_spec(source, output, sink, input, replies) == Step::<
            (),
            Result<(), Error>,
        >::Done(Err(Error::InvalidState)),
        graph.validate_spec(replies) == Step::<(), Result<(), Error>>::Done(
            Err(Error::InvalidState),
        ),
        graph.validated_stage(replies) is Configured,
{
}

/// A graph becomes configured by a check that it passed, and by nothing
/// else.
pub proof fn only_a_passed_check_configures(graph: Graph, replies: Seq<Reply>)
    requires
        graph.stage() is Unconfigured,
    ensures
        graph.validated_stage(replies) is Configured <==> graph.validate_spec(replies) == Step::<
            (),
            Result<(), Error>,
        >::Done(Ok(())),
{
}

/// Asks the library behind this module for its version number.
pub fn version(replies: &[Reply]) -> (step: Step<(), u32>)
    ensures
        step == crate::native::version_spec(Library::Filter, replies@),
{
    crate::native::version(Library::Filter, replies)
}

} // verus!
