//! Memory regions and the flow-buffer views they are read from.

use vstd::prelude::*;

use crate::error::Error;

verus! {

/// One contiguous span of memory owned by a flow buffer, eligible for
/// zero-copy transfer.
#[derive(Clone, Copy, PartialEq, Eq, Structural, Debug)]
pub struct Region {
    /// Base address of the span.
    pub base: u64,
    /// Length of the span in bytes.
    pub len: u64,
}

/// The abstract state of a [`Regions`] value.
pub struct RegionsView {
    pub spans: Seq<Region>,
    pub registered: bool,
}

/// A capability token over the memory regions backing one flow-buffer
/// view. It owns no memory itself; it references the flow buffer's
/// spans and stays registered until it is explicitly released. A
/// session configuration must hold a still-registered token when it is
/// consumed by setup, and the token must outlive the session it
/// configures.
pub struct Regions {
    spans: Vec<Region>,
    registered: bool,
}

impl View for Regions {
    type V = RegionsView;

    closed spec fn view(&self) -> RegionsView {
        RegionsView { spans: self.spans@, registered: self.registered }
    }
}

impl Regions {
    /// Registers the given spans as a new capability token.
    pub fn new(spans: Vec<Region>) -> (r: Regions)
        ensures
            r@.spans == spans@,
            r@.registered,
    {
        Regions { spans, registered: true }
    }

    /// Releases the registration. Releasing an already-released token
    /// is a no-op, never a double free.
    pub fn release(&mut self)
        ensures
            final(self)@.spans == old(self)@.spans,
            !final(self)@.registered,
    {
        self.registered = false;
    }

    /// Whether the token is still registered.
    pub fn is_registered(&self) -> (r: bool)
        ensures
            r == self@.registered,
    {
        self.registered
    }

    /// The number of spans the token references.
    pub fn span_count(&self) -> (r: usize)
        ensures
            r == self@.spans.len(),
    {
        self.spans.len()
    }

    /// A copy of the spans the token references.
    pub fn spans_to_vec(&self) -> (r: Vec<Region>)
        ensures
            r@ == self@.spans,
    {
        copy_regions(&self.spans)
    }

    /// The span at the given position.
    pub fn span_at(&self, i: usize) -> (r: Region)
        requires
            i < self@.spans.len(),
        ensures
            r == self@.spans[i as int],
    {
        self.spans[i]
    }
}

/// The abstract state of a flow-buffer view.
pub struct FlowView {
    pub regions: Seq<Region>,
    pub available: bool,
}

/// The reader side of a flow buffer, as far as this crate needs it: the
/// memory spans behind the view, and whether the buffer still exposes
/// stable memory. An initiator registers a reader's spans as the source
/// of its transfers. The flow buffer's storage itself is a collaborator
/// and is not modelled here.
pub struct FlowReader {
    regions: Vec<Region>,
    available: bool,
}

impl View for FlowReader {
    type V = FlowView;

    closed spec fn view(&self) -> FlowView {
        FlowView { regions: self.regions@, available: self.available }
    }
}

impl FlowReader {
    /// Describes a reader view backed by the given spans.
    pub fn new(regions: Vec<Region>) -> (r: FlowReader)
        ensures
            r@.regions == regions@,
            r@.available,
    {
        FlowReader { regions, available: true }
    }

    /// Marks the buffer as no longer exposing stable memory.
    pub fn close(&mut self)
        ensures
            final(self)@.regions == old(self)@.regions,
            !final(self)@.available,
    {
        self.available = false;
    }
}

/// The writer side of a flow buffer, as far as this crate needs it.
/// A target registers a writer's spans as the destination of inbound
/// transfers.
pub struct FlowWriter {
    regions: Vec<Region>,
    available: bool,
}

impl View for FlowWriter {
    type V = FlowView;

    closed spec fn view(&self) -> FlowView {
        FlowView { regions: self.regions@, available: self.available }
    }
}

impl FlowWriter {
    /// Describes a writer view backed by the given spans.
    pub fn new(regions: Vec<Region>) -> (r: FlowWriter)
        ensures
            r@.regions == regions@,
            r@.available,
    {
        FlowWriter { regions, available: true }
    }

    /// Marks the buffer as no longer exposing stable memory.
    pub fn close(&mut self)
        ensures
            final(self)@.regions == old(self)@.regions,
            !final(self)@.available,
    {
        self.available = false;
    }
}

/// Copies a list of spans.
pub(crate) fn copy_regions(v: &Vec<Region>) -> (r: Vec<Region>)
    ensures
        r@ == v@,
{
    let mut r: Vec<Region> = Vec::new();
    let mut i: usize = 0;
    while i < v.len()
        invariant
            i <= v@.len(),
            r@ == v@.take(i as int),
        decreases v@.len() - i,
    {
        r.push(v[i]);
        proof {
            assert(r@ =~= v@.take(i as int + 1));
        }
        i += 1;
    }
    proof {
        assert(v@.take(v@.len() as int) =~= v@);
    }
    r
}

/// The memory regions backing a reader view, as a fresh registration.
/// Fails with `BufferUnavailable` when the buffer no longer exposes
/// stable memory.
pub fn regions_for_reader(reader: &FlowReader) -> (r: Result<Regions, Error>)
    ensures
        reader@.available ==> (r matches Ok(regions) && regions@.spans == reader@.regions
            && regions@.registered),
        !reader@.available ==> r == Result::<Regions, Error>::Err(Error::BufferUnavailable),
{
    if !reader.available {
        return Err(Error::BufferUnavailable);
    }
    Ok(Regions::new(copy_regions(&reader.regions)))
}

/// The memory regions backing a writer view, as a fresh registration.
/// Fails with `BufferUnavailable` when the buffer no longer exposes
/// stable memory.
pub fn regions_for_writer(writer: &FlowWriter) -> (r: Result<Regions, Error>)
    ensures
        writer@.available ==> (r matches Ok(regions) && regions@.spans == writer@.regions
            && regions@.registered),
        !writer@.available ==> r == Result::<Regions, Error>::Err(Error::BufferUnavailable),
{
    if !writer.available {
        return Err(Error::BufferUnavailable);
    }
    Ok(Regions::new(copy_regions(&writer.regions)))
}

} // verus!
