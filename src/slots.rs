use vstd::prelude::*;
use crate::format::{AudioFormat, StreamKey};

verus! {

/// The capture stream currently feeding the pipeline, with the format it
/// was opened with.
#[derive(Clone, Copy, Debug, PartialEq, Eq, Structural)]
pub struct InputBinding {
    pub stream: StreamKey,
    pub format: AudioFormat,
}

/// The stream of an optional binding.
pub open spec fn stream_of(b: Option<InputBinding>) -> Option<StreamKey> {
    match b {
        Some(x) => Some(x.stream),
        None => None,
    }
}

/// Single-occupancy holder for the capture binding.
pub struct InputSlot {
    binding: Option<InputBinding>,
}

impl View for InputSlot {
    type V = Option<InputBinding>;

    closed spec fn view(&self) -> Option<InputBinding> {
        self.binding
    }
}

impl InputSlot {
    /// A bound slot always holds a well-formed format.
    pub open spec fn wf(&self) -> bool {
        self@ matches Some(b) ==> b.format.wf()
    }

    /// An empty slot.
    pub fn new() -> (r: InputSlot)
        ensures
            r@ == None::<InputBinding>,
            r.wf(),
    {
        InputSlot { binding: None }
    }

    /// Records `binding` as the current input and hands back the stream it
    /// replaced, which the caller must tear down.
    pub fn bind(&mut self, binding: InputBinding) -> (replaced: Option<StreamKey>)
        requires
            binding.format.wf(),
        ensures
            final(self)@ == Some(binding),
            final(self).wf(),
            replaced == stream_of(old(self)@),
    {
        let replaced = match self.binding {
            Some(b) => Some(b.stream),
            None => None,
        };
        self.binding = Some(binding);
        replaced
    }

    /// Empties the slot and hands back the stream that was bound, if any.
    pub fn clear(&mut self) -> (released: Option<StreamKey>)
        ensures
            final(self)@ == None::<InputBinding>,
            final(self).wf(),
            released == stream_of(old(self)@),
    {
        let released = match self.binding {
            Some(b) => Some(b.stream),
            None => None,
        };
        self.binding = None;
        released
    }

    /// A copy of the current binding.
    pub fn current(&self) -> (r: Option<InputBinding>)
        ensures
            r == self@,
    {
        self.binding
    }

    pub fn is_bound(&self) -> (r: bool)
        ensures
            r == (self@ is Some),
    {
        self.binding.is_some()
    }
}

/// Single-occupancy holder for the playback sink.
pub struct OutputSlot<T> {
    sink: Option<T>,
}

impl<T> View for OutputSlot<T> {
    type V = Option<T>;

    closed spec fn view(&self) -> Option<T> {
        self.sink
    }
}

impl<T> OutputSlot<T> {
    /// An empty slot.
    pub fn new() -> (r: OutputSlot<T>)
        ensures
            r@ == None::<T>,
    {
        OutputSlot { sink: None }
    }

    /// Installs `sink` and hands back the one it replaced. The new sink is in
    /// place before the caller drops the old one, so there is no moment
    /// without a sink.
    pub fn install(&mut self, sink: T) -> (replaced: Option<T>)
        ensures
            final(self)@ == Some(sink),
            replaced == old(self)@,
    {
        let replaced = self.sink.take();
        self.sink = Some(sink);
        replaced
    }

    /// Empties the slot and hands back the sink that was installed, if any.
    pub fn clear(&mut self) -> (released: Option<T>)
        ensures
            final(self)@ == None::<T>,
            released == old(self)@,
    {
        self.sink.take()
    }

    pub fn is_bound(&self) -> (r: bool)
        ensures
            r == (self@ is Some),
    {
        self.sink.is_some()
    }

    /// The installed sink, if any.
    pub fn sink(&self) -> (r: &Option<T>)
        ensures
            *r == self@,
    {
        &self.sink
    }
}

} // verus!
